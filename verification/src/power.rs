//! Dual-battery failover controller.
//!
//! Two coin cells feed the load through load switches with active-low
//! enable lines.  The controller owns both enable lines and a two-valued
//! state telling which source currently powers the load.  A low-voltage
//! event toggles to the other source with make-before-break ordering: the
//! newly selected enable line is asserted strictly before the previously
//! active one is released, so the load never sees zero enabled sources.
//!
//! The model keeps a ghost trace of the enable-line writes.  Each entry
//! records, for the moment just after one physical write, whether the main
//! and the backup switch are enabled; the make-before-break guarantee is
//! stated and proved over that trace.

use vstd::prelude::*;

use crate::line::OutputLine;

verus! {

/// Which battery currently powers the load.
#[derive(Clone, Copy, PartialEq, Eq, Structural, Debug)]
pub enum PowerState {
    /// The main battery is active.
    MainPower,
    /// The backup battery is active.
    BackupPower,
}

/// The other power source.
pub open spec fn flip(state: PowerState) -> PowerState {
    match state {
        PowerState::MainPower => PowerState::BackupPower,
        PowerState::BackupPower => PowerState::MainPower,
    }
}

/// Abstract state of the failover controller.
///
/// `main_on` and `backup_on` tell whether each load switch is enabled
/// (its active-low enable line driven low).  `writes` is the trace of
/// enable-line writes: entry `i` is `(main_on, backup_on)` as observable
/// just after the `i`-th write since construction.
pub struct PowerModel {
    /// The main battery's load switch is enabled.
    pub main_on: bool,
    /// The backup battery's load switch is enabled.
    pub backup_on: bool,
    /// Which source the controller believes is active.
    pub state: PowerState,
    /// Switch-enable levels observable after each enable-line write.
    pub writes: Seq<(bool, bool)>,
}

/// The controller is at rest between transitions: exactly the source named
/// by `state` is enabled.
pub open spec fn sources_settled(m: PowerModel) -> bool {
    &&& m.main_on == (m.state == PowerState::MainPower)
    &&& m.backup_on == (m.state == PowerState::BackupPower)
}

/// At every recorded write, at least one load switch was enabled: the load
/// was never left without a source.
pub open spec fn always_powered(writes: Seq<(bool, bool)>) -> bool {
    forall|i: int| 0 <= i < writes.len() ==> writes[i].0 || writes[i].1
}

/// Effect of one voltage event on the abstract state.
///
/// A recovered reading (`low_voltage == false`) is a no-op by design:
/// failover is one-directional per event and only alternates on repeated
/// low readings.  A low reading toggles the active source with two writes:
/// first the newly selected enable line is asserted, then the previously
/// active one is released.
pub open spec fn spec_transition(m: PowerModel, low_voltage: bool) -> PowerModel {
    if !low_voltage {
        m
    } else if m.state == PowerState::MainPower {
        PowerModel {
            main_on: false,
            backup_on: true,
            state: PowerState::BackupPower,
            writes: m.writes + seq![(m.main_on, true), (false, true)],
        }
    } else {
        PowerModel {
            main_on: true,
            backup_on: false,
            state: PowerState::MainPower,
            writes: m.writes + seq![(true, m.backup_on), (true, false)],
        }
    }
}

/// Controller for the two battery load switches.
///
/// Owns the two active-low enable lines exclusively; nothing else touches
/// them.  The view abstracts the lines to switch-enable booleans and
/// carries the ghost write trace.
pub struct PowerController {
    /// Active-low enable for the main battery's load switch.
    main_power_n: OutputLine,
    /// Active-low enable for the backup battery's load switch.
    backup_power_n: OutputLine,
    /// Which source is currently active.
    state: PowerState,
    /// Trace of enable-line writes since construction.
    writes: Ghost<Seq<(bool, bool)>>,
}

impl View for PowerController {
    type V = PowerModel;

    closed spec fn view(&self) -> PowerModel {
        PowerModel {
            main_on: !self.main_power_n.is_high(),
            backup_on: !self.backup_power_n.is_high(),
            state: self.state,
            writes: self.writes@,
        }
    }
}

impl PowerController {
    /// Takes ownership of the two enable lines, in whatever levels the
    /// embedding layer left them.  The controller starts out believing the
    /// main source is active; `init_main_power` makes the lines agree.
    pub fn new(main_power_n: OutputLine, backup_power_n: OutputLine) -> (ctrl: PowerController)
        ensures
            ctrl@ == (PowerModel {
                main_on: !main_power_n.is_high(),
                backup_on: !backup_power_n.is_high(),
                state: PowerState::MainPower,
                writes: Seq::<(bool, bool)>::empty(),
            }),
    {
        PowerController {
            main_power_n,
            backup_power_n,
            state: PowerState::MainPower,
            writes: Ghost(Seq::empty()),
        }
    }

    /// Records the switch-enable levels observable after the enable-line
    /// write that was just performed.
    fn record_write(&mut self)
        ensures
            final(self)@ == (PowerModel {
                writes: old(self)@.writes.push((old(self)@.main_on, old(self)@.backup_on)),
                ..old(self)@
            }),
    {
        self.writes = Ghost(
            self.writes@.push((!self.main_power_n.is_high(), !self.backup_power_n.is_high())),
        );
    }

    /// Establishes the starting condition: main source powering the load,
    /// backup disabled.  To be called once, before any voltage event is
    /// serviced.
    pub fn init_main_power(&mut self)
        requires
            old(self)@.state == PowerState::MainPower,
        ensures
            final(self)@ == (PowerModel {
                main_on: true,
                backup_on: false,
                state: PowerState::MainPower,
                writes: old(self)@.writes + seq![
                    (true, old(self)@.backup_on),
                    (true, false),
                ],
            }),
            sources_settled(final(self)@),
    {
        self.main_power_n.set_low();
        self.record_write();
        self.backup_power_n.set_high();
        self.record_write();
        assert(self@.writes =~= old(self)@.writes + seq![
            (true, old(self)@.backup_on),
            (true, false),
        ]);
    }

    /// Services one voltage event.
    ///
    /// A recovered reading changes nothing.  A low reading toggles the
    /// active source, asserting the new enable line strictly before
    /// releasing the old one.
    pub fn power_transition(&mut self, low_voltage: bool)
        ensures
            final(self)@ == spec_transition(old(self)@, low_voltage),
    {
        if low_voltage {
            self.state = match self.state {
                PowerState::MainPower => {
                    self.switch_to_backup();
                    PowerState::BackupPower
                },
                PowerState::BackupPower => {
                    self.switch_to_main();
                    PowerState::MainPower
                },
            };
        }
    }

    /// Make-before-break switch to the backup battery: backup on first,
    /// then main off.
    fn switch_to_backup(&mut self)
        ensures
            final(self)@ == (PowerModel {
                main_on: false,
                backup_on: true,
                state: old(self)@.state,
                writes: old(self)@.writes + seq![(old(self)@.main_on, true), (false, true)],
            }),
    {
        self.backup_power_n.set_low();
        self.record_write();
        self.main_power_n.set_high();
        self.record_write();
        assert(self@.writes =~= old(self)@.writes + seq![
            (old(self)@.main_on, true),
            (false, true),
        ]);
    }

    /// Make-before-break switch to the main battery: main on first, then
    /// backup off.
    fn switch_to_main(&mut self)
        ensures
            final(self)@ == (PowerModel {
                main_on: true,
                backup_on: false,
                state: old(self)@.state,
                writes: old(self)@.writes + seq![(true, old(self)@.backup_on), (true, false)],
            }),
    {
        self.main_power_n.set_low();
        self.record_write();
        self.backup_power_n.set_high();
        self.record_write();
        assert(self@.writes =~= old(self)@.writes + seq![
            (true, old(self)@.backup_on),
            (true, false),
        ]);
    }

    /// Which source is currently active.
    pub fn state(&self) -> (state: PowerState)
        ensures
            state == self@.state,
    {
        self.state
    }

    /// Whether the main battery's load switch is enabled.
    pub fn main_enabled(&self) -> (enabled: bool)
        ensures
            enabled == self@.main_on,
    {
        !self.main_power_n.is_set_high()
    }

    /// Whether the backup battery's load switch is enabled.
    pub fn backup_enabled(&self) -> (enabled: bool)
        ensures
            enabled == self@.backup_on,
    {
        !self.backup_power_n.is_set_high()
    }
}

/// A recovered voltage reading is a no-op: it changes neither the state
/// nor the enable lines, however often it is repeated.
pub proof fn lemma_recovered_is_noop(m: PowerModel)
    ensures
        spec_transition(m, false) == m,
{
}

/// Make-before-break: a low-voltage transition from a settled controller
/// performs exactly two writes; after the first, both sources are enabled
/// — the new source is on strictly before the old one is released — and
/// after the second, exactly the new source is.
pub proof fn lemma_make_before_break(m: PowerModel)
    requires
        sources_settled(m),
    ensures
        ({
            let next = spec_transition(m, true);
            &&& next.writes =~= m.writes + seq![
                (true, true),
                (next.main_on, next.backup_on),
            ]
            &&& sources_settled(next)
            &&& next.state == flip(m.state)
        }),
{
}

/// The load is never left without a source: every transition, from a
/// settled controller whose trace never lost power, leaves a trace that
/// never lost power.
pub proof fn lemma_stays_powered(m: PowerModel, low_voltage: bool)
    requires
        sources_settled(m),
        always_powered(m.writes),
    ensures
        sources_settled(spec_transition(m, low_voltage)),
        always_powered(spec_transition(m, low_voltage).writes),
{
    let next = spec_transition(m, low_voltage);
    assert forall|i: int| 0 <= i < next.writes.len() implies next.writes[i].0
        || next.writes[i].1 by {
        if i < m.writes.len() {
            assert(m.writes[i].0 || m.writes[i].1);
        }
    }
}

/// Repeated low-voltage events starting from `m`.
pub open spec fn low_events(m: PowerModel, n: nat) -> PowerModel
    decreases n,
{
    if n == 0 {
        m
    } else {
        spec_transition(low_events(m, (n - 1) as nat), true)
    }
}

/// Strict alternation: starting from the main source, the active source
/// after `n` low-voltage events is main for even `n` and backup for odd
/// `n`, regardless of anything between the events.
pub proof fn lemma_failover_alternates(m: PowerModel, n: nat)
    requires
        m.state == PowerState::MainPower,
    ensures
        low_events(m, n).state == if n % 2 == 0 {
            PowerState::MainPower
        } else {
            PowerState::BackupPower
        },
    decreases n,
{
    if n > 0 {
        lemma_failover_alternates(m, (n - 1) as nat);
    }
}

} // verus!
