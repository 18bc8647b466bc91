//! The cells through which the control handler and the monitor share their state, of the
//! `embassy-sync` crate and of `core`.
//!
//! What such a cell holds changes behind shared references. But there is one [`Publisher`] for the
//! cells of a class, and nothing else stores settings or rates: whoever holds it knows exactly what
//! they hold, and while it is borrowed they hold still. There is one [`Reader`], which alone takes
//! the notice of a change. What it reads while the publisher goes on is what the cells hold at some
//! point of their [`History`] that lies behind the notice it took last.
//!
//! For that, on several cores too, the rate and the flag are stored and loaded with sequential
//! consistency: one order of all these accesses agrees with what each side does one after the other.
//! The settings are stored and loaded in critical sections, which have one order as well.
use core::cell::Cell;
use core::sync::atomic::{AtomicBool, AtomicU32, Ordering};
use core::task::Waker;
use embassy_sync::blocking_mutex::CriticalSectionMutex;
use embassy_sync::waitqueue::AtomicWaker;
use vstd::prelude::*;

#[allow(unused_imports)]
use crate::fixed_vec::table_rates;
#[allow(unused_imports)]
use crate::control::ControlState;
use crate::fixed_vec::{table_as_slice, MAX_SAMPLE_RATE_COUNT};
use crate::function::FeatureUnitControls;
use crate::settings::AudioSettings;
#[allow(unused_imports)]
use crate::settings::SettingsView;

verus! {

/// `embassy_sync::blocking_mutex::Mutex`.
#[verifier::external_type_specification]
#[verifier::external_body]
#[verifier::reject_recursive_types(R)]
#[verifier::reject_recursive_types(T)]
pub struct ExMutex<R, T: ?Sized>(embassy_sync::blocking_mutex::Mutex<R, T>);

/// `embassy_sync::blocking_mutex::raw::CriticalSectionRawMutex`.
#[verifier::external_type_specification]
#[verifier::external_body]
pub struct ExCriticalSectionRawMutex(embassy_sync::blocking_mutex::raw::CriticalSectionRawMutex);

/// `core::cell::Cell`.
#[verifier::external_type_specification]
#[verifier::external_body]
#[verifier::reject_recursive_types(T)]
pub struct ExCell<T: ?Sized>(core::cell::Cell<T>);

/// `embassy_sync::waitqueue::AtomicWaker`.
#[verifier::external_type_specification]
#[verifier::external_body]
pub struct ExAtomicWaker(embassy_sync::waitqueue::AtomicWaker);

/// `core::task::Waker`.
#[verifier::external_type_specification]
#[verifier::external_body]
pub struct ExWaker(core::task::Waker);

/// `AtomicWaker::new` makes a waker slot with nothing registered. What is registered is not part
/// of the value, so nothing is claimed of it.
pub assume_specification[ AtomicWaker::new ]() -> AtomicWaker;

/// Whether a stream with `rates` can run at `rate`: it is one of them, or zero if there is none.
pub open spec fn is_offered(rates: Seq<u32>, rate: u32) -> bool {
    if rates.len() == 0 {
        rate == 0
    } else {
        rates.contains(rate)
    }
}

/// What can be set of a stream: which controls, and on the master channel and how many others.
pub struct Limits {
    pub controls: FeatureUnitControls,
    pub channel_count: nat,
}

/// The sample rates that a rate cell is made for.
pub uninterp spec fn cell_rates(cell: AtomicU32) -> Seq<u32>;

/// The limits that a settings cell is made for.
pub uninterp spec fn cell_limits(cell: CriticalSectionMutex<Cell<AudioSettings>>) -> Limits;

/// `AtomicU32::new` makes a cell that holds `rate`, for a stream that offers `rates`.
#[verifier::external_body]
fn rate_cell(rates: &heapless::Vec<u32, MAX_SAMPLE_RATE_COUNT>, rate: u32) -> (cell: AtomicU32)
    requires
        is_offered(table_rates(*rates), rate),
    ensures
        cell_rates(cell) == table_rates(*rates),
{
    AtomicU32::new(rate)
}

/// `Mutex::new` guards a cell that holds `settings`, for a stream with `controls` on the master
/// channel and on `channel_count` others.
#[verifier::external_body]
fn settings_cell(
    settings: AudioSettings,
    controls: FeatureUnitControls,
    channel_count: usize,
) -> (cell: CriticalSectionMutex<Cell<AudioSettings>>)
    requires
        settings@.within(controls, channel_count as nat),
    ensures
        cell_limits(cell) == (Limits { controls, channel_count: channel_count as nat }),
{
    CriticalSectionMutex::new(Cell::new(settings))
}

/// The cells that the control handler and the monitor share.
pub struct SharedControl {
    /// The collection of audio settings (volumes, mute states).
    audio_settings: CriticalSectionMutex<Cell<AudioSettings>>,
    /// The sample rates the stream offers.
    sample_rates_hz: heapless::Vec<u32, MAX_SAMPLE_RATE_COUNT>,
    /// The audio sample rate in Hz.
    sample_rate_hz: AtomicU32,
    // Notification mechanism. An atomic waker, so the monitor can live on a
    // different executor than the handler.
    waker: AtomicWaker,
    changed: AtomicBool,
}

impl SharedControl {
    /// The sample rates that the stream offers.
    pub closed spec fn rates(&self) -> Seq<u32> {
        cell_rates(self.sample_rate_hz)
    }

    /// What can be set of the stream.
    pub closed spec fn limits(&self) -> Limits {
        cell_limits(self.audio_settings)
    }

    /// Whether settings keep to what can be set of the stream.
    pub open spec fn allows(&self, settings: SettingsView) -> bool {
        settings.within(self.limits().controls, self.limits().channel_count)
    }

    /// The table of sample rates holds those that the rate cell is made for.
    pub closed spec fn wf(&self) -> bool {
        table_rates(self.sample_rates_hz) == self.rates()
    }

    /// Cells for a stream that offers `sample_rates_hz` and runs at `sample_rate_hz`, with
    /// `controls` on the master channel and on `channel_count` others.
    pub(crate) fn new(
        sample_rates_hz: heapless::Vec<u32, MAX_SAMPLE_RATE_COUNT>,
        sample_rate_hz: u32,
        controls: FeatureUnitControls,
        channel_count: usize,
    ) -> (shared: Self)
        requires
            is_offered(table_rates(sample_rates_hz), sample_rate_hz),
        ensures
            shared.wf(),
            shared.rates() == table_rates(sample_rates_hz),
            shared.limits() == (Limits { controls, channel_count: channel_count as nat }),
    {
        let sample_rate = rate_cell(&sample_rates_hz, sample_rate_hz);
        SharedControl {
            audio_settings: settings_cell(AudioSettings::default(), controls, channel_count),
            sample_rates_hz,
            sample_rate_hz: sample_rate,
            waker: AtomicWaker::new(),
            changed: AtomicBool::new(false),
        }
    }

    /// The sample rates that the stream offers.
    pub(crate) fn sample_rates_hz(&self) -> (rates: &[u32])
        requires
            self.wf(),
        ensures
            rates@ == self.rates(),
            rates@.len() <= MAX_SAMPLE_RATE_COUNT,
    {
        table_as_slice(&self.sample_rates_hz)
    }

    /// `Mutex::lock`, to read the settings in a critical section. To store there takes a mutable
    /// borrow of the publisher, so while it is borrowed here they are those that it has stored last.
    #[verifier::external_body]
    pub(crate) fn settings_at(&self, publisher: &Publisher<'_>) -> (settings: AudioSettings)
        requires
            published(*publisher).shared == *self,
        ensures
            settings@ == published(*publisher).state.settings,
    {
        self.audio_settings.lock(|x| x.get())
    }

    /// `AtomicU32::load`. To store there takes a mutable borrow of the publisher, so while it is
    /// borrowed here the rate is the one that it has stored last.
    #[verifier::external_body]
    pub(crate) fn rate_at(&self, publisher: &Publisher<'_>) -> (rate: u32)
        requires
            published(*publisher).shared == *self,
        ensures
            rate == published(*publisher).state.sample_rate_hz,
    {
        self.sample_rate_hz.load(Ordering::SeqCst)
    }
}

/// Something that a publisher does to the cells.
pub enum Step {
    /// Store the settings.
    StoreSettings,
    /// Store the sample rate.
    StoreRate,
    /// Set the flag that says that something has changed.
    Raise,
    /// Wake the registered waker, if any.
    Wake,
}

/// All that becomes of the cells, from when the publisher is made until it is gone.
pub struct History {
    /// What the cells hold after so many steps of the publisher.
    pub states: Map<nat, ControlState>,
    /// What the publisher does after so many steps.
    pub log: Map<nat, Step>,
}

impl History {
    /// Whether these are settings that the cells hold after `taken` steps or more.
    pub open spec fn settings_since(self, taken: nat, settings: SettingsView) -> bool {
        exists|k: nat| taken <= k && settings == (#[trigger] self.states[k]).settings
    }

    /// Whether this is a sample rate that the cells hold after `taken` steps or more.
    pub open spec fn rate_since(self, taken: nat, rate: u32) -> bool {
        exists|k: nat| taken <= k && rate == (#[trigger] self.states[k]).sample_rate_hz
    }

    /// Whether the flag is set by a step that follows the first `taken`.
    pub open spec fn raised_since(self, taken: nat) -> bool {
        exists|i: nat| taken <= i && #[trigger] self.log[i] == Step::Raise
    }

    /// Whether the flag is set by a step that follows the first `from`, and is one of the first `to`.
    pub open spec fn raised_between(self, from: nat, to: nat) -> bool {
        exists|i: nat| from <= i < to && #[trigger] self.log[i] == Step::Raise
    }
}

/// What a publisher has published.
pub struct Published {
    /// What the cells hold.
    pub state: ControlState,
    /// All that the publisher has done to the cells, in order.
    pub steps: Seq<Step>,
    /// All that becomes of the cells.
    pub history: History,
    /// The cells.
    pub shared: SharedControl,
}

impl Published {
    /// The same after one more step, which leaves settings and rate as they are.
    pub open spec fn after(self, step: Step) -> Published {
        Published { steps: self.steps.push(step), ..self }
    }

    /// The history has what the cells hold by now.
    pub open spec fn on_record(self) -> bool {
        self.history.states[self.steps.len()] == self.state
    }

    /// The history has what the cells hold by now, and the last step.
    pub open spec fn step_on_record(self) -> bool {
        &&& self.on_record()
        &&& self.history.log[(self.steps.len() - 1) as nat] == self.steps.last()
    }
}

/// Whether the flag was set by one of the steps that follow the first `taken`.
pub open spec fn raised_since(steps: Seq<Step>, taken: nat) -> bool {
    exists|i: int| taken <= i < steps.len() && #[trigger] steps[i] == Step::Raise
}

/// Something that a reader does to the flag and the waker.
pub enum PollStep {
    /// Look at the flag, and find it set or not.
    Found(bool),
    /// Clear the flag.
    Clear,
    /// Register a waker, in place of an earlier one.
    Register(Waker),
}

/// What a reader has taken notice of.
pub struct Polled {
    /// All that the reader has done to the flag and the waker, in order.
    pub steps: Seq<PollStep>,
    /// So many steps of the publisher came before the reader last cleared the flag, and none that
    /// set the flag has come between these and the clearing.
    pub taken: nat,
    /// All that becomes of the cells.
    pub history: History,
    /// The cells.
    pub shared: SharedControl,
}

impl Polled {
    /// The same after one more step, which does not clear the flag.
    pub open spec fn after(self, step: PollStep) -> Polled {
        Polled { steps: self.steps.push(step), ..self }
    }

    /// The same after the flag was cleared, behind `taken` steps of the publisher.
    pub open spec fn cleared(self, taken: nat) -> Polled {
        Polled { steps: self.steps.push(PollStep::Clear), taken, ..self }
    }
}

/// The right to store settings and rates in shared cells, and to tell of it. It is made from a
/// mutable borrow of the cells that lasts as long as itself, so there is no second one for them.
#[verifier::external_body]
pub struct Publisher<'d>(&'d SharedControl);

/// The right to take the notice of a change. It is made together with the publisher, so there is no
/// second one for the cells.
#[verifier::external_body]
pub struct Reader<'d>(&'d SharedControl);

/// What a publisher has published: what its cells hold, what it has done to them, and what becomes
/// of them until it is gone.
pub uninterp spec fn published(publisher: Publisher<'_>) -> Published;

/// What a reader has taken notice of, and what becomes of its cells.
pub uninterp spec fn polled(reader: Reader<'_>) -> Polled;

/// `AtomicBool::store`, to have the flag cleared. The publisher, the reader and the shared reference
/// that come back are all to the cells that were handed in, and have one history. What the cells
/// hold is left open.
#[verifier::external_body]
pub(crate) fn share<'d>(shared: &'d mut SharedControl) -> (parts: (
    Publisher<'d>,
    Reader<'d>,
    &'d SharedControl,
))
    ensures
        published(parts.0).steps == Seq::<Step>::empty(),
        published(parts.0).on_record(),
        published(parts.0).shared == *parts.2,
        polled(parts.1) == (Polled {
            steps: Seq::empty(),
            taken: 0,
            history: published(parts.0).history,
            shared: *parts.2,
        }),
        *parts.2 == *old(shared),
{
    shared.changed.store(false, Ordering::SeqCst);
    (Publisher(shared), Reader(shared), shared)
}

impl<'d> Publisher<'d> {
    /// `Mutex::lock`, to replace the settings in a critical section.
    #[verifier::external_body]
    pub(crate) fn store_settings(&mut self, settings: AudioSettings)
        requires
            published(*old(self)).shared.allows(settings@),
        ensures
            published(*final(self)) == (Published {
                state: ControlState {
                    settings: settings@,
                    ..published(*old(self)).state
                },
                ..published(*old(self)).after(Step::StoreSettings)
            }),
            published(*final(self)).step_on_record(),
    {
        self.0.audio_settings.lock(|x| x.set(settings))
    }

    /// `AtomicU32::store` replaces the sample rate, by one that the stream offers.
    #[verifier::external_body]
    pub(crate) fn store_rate(&mut self, rate: u32)
        requires
            is_offered(published(*old(self)).shared.rates(), rate),
        ensures
            published(*final(self)) == (Published {
                state: ControlState {
                    sample_rate_hz: rate,
                    ..published(*old(self)).state
                },
                ..published(*old(self)).after(Step::StoreRate)
            }),
            published(*final(self)).step_on_record(),
    {
        self.0.sample_rate_hz.store(rate, Ordering::SeqCst)
    }

    /// `AtomicBool::store` sets the flag that says that something has changed.
    #[verifier::external_body]
    pub(crate) fn raise(&mut self)
        ensures
            published(*final(self)) == published(*old(self)).after(Step::Raise),
            published(*final(self)).step_on_record(),
    {
        self.0.changed.store(true, Ordering::SeqCst)
    }

    /// `AtomicWaker::wake` wakes the registered waker, if any. That it was called is claimed, and
    /// not whom it has woken.
    #[verifier::external_body]
    pub(crate) fn wake(&mut self)
        ensures
            published(*final(self)) == published(*old(self)).after(Step::Wake),
            published(*final(self)).step_on_record(),
    {
        self.0.waker.wake()
    }
}

impl<'d> Reader<'d> {
    /// `Mutex::lock`, to read the settings in a critical section. They are within the limits that
    /// the cell is made for, as all that [`settings_cell`] and [`Publisher::store_settings`] put
    /// there, and nothing else does. The publisher stores them in a critical section before it sets
    /// the flag. Were a reading, after the flag was cleared, in the earlier critical section, then
    /// the clearing would come before that setting of the flag: so what is read is from behind all
    /// steps that came before the clearing. How far behind is left open: another execution context
    /// may store at any time.
    #[verifier::external_body]
    pub(crate) fn settings(&self) -> (settings: AudioSettings)
        ensures
            polled(*self).shared.allows(settings@),
            polled(*self).history.settings_since(polled(*self).taken, settings@),
    {
        self.0.audio_settings.lock(|x| x.get())
    }

    /// `AtomicU32::load`. The rate is one that the cell is made for, as all that [`rate_cell`] and
    /// [`Publisher::store_rate`] put there, and nothing else does. With sequential consistency a
    /// rate that was stored before the flag was set, and so before it was cleared, was also stored
    /// before this load: what is read is that one or a later one. How much later is left open:
    /// another execution context may store at any time.
    #[verifier::external_body]
    pub(crate) fn rate(&self) -> (rate: u32)
        ensures
            is_offered(polled(*self).shared.rates(), rate),
            polled(*self).history.rate_since(polled(*self).taken, rate),
    {
        self.0.sample_rate_hz.load(Ordering::SeqCst)
    }

    /// `AtomicBool::load` looks at the flag. It is set only if the publisher has set it since this
    /// reader last cleared it. Whether it is set by now is left open: the publisher may set it at
    /// any time.
    #[verifier::external_body]
    pub(crate) fn find(&mut self) -> (found: bool)
        ensures
            found ==> polled(*old(self)).history.raised_since(polled(*old(self)).taken),
            polled(*final(self)) == polled(*old(self)).after(PollStep::Found(found)),
    {
        self.0.changed.load(Ordering::SeqCst)
    }

    /// `AtomicBool::load` looks at the flag. Only the publisher sets it, which takes a mutable
    /// borrow, and only this reader clears it: so while the publisher is borrowed here, the flag is
    /// set if the publisher has set it since this reader last cleared it.
    #[verifier::external_body]
    pub(crate) fn find_at(&mut self, publisher: &Publisher<'_>) -> (found: bool)
        requires
            published(*publisher).shared == polled(*old(self)).shared,
        ensures
            found == raised_since(published(*publisher).steps, polled(*old(self)).taken),
            polled(*final(self)) == polled(*old(self)).after(PollStep::Found(found)),
    {
        self.0.changed.load(Ordering::SeqCst)
    }

    /// `AtomicBool::store` clears the flag, which was found set: so since this reader last cleared
    /// it, the publisher has set it, and that came before this clearing. How many steps of the
    /// publisher came before it is left open.
    #[verifier::external_body]
    pub(crate) fn clear(&mut self)
        requires
            polled(*old(self)).steps.len() > 0,
            polled(*old(self)).steps.last() == PollStep::Found(true),
        ensures
            polled(*final(self)) == polled(*old(self)).cleared(polled(*final(self)).taken),
            polled(*old(self)).history.raised_between(
                polled(*old(self)).taken,
                polled(*final(self)).taken,
            ),
    {
        self.0.changed.store(false, Ordering::SeqCst)
    }

    /// `AtomicBool::store` clears the flag. While the publisher is borrowed here it does no step, so
    /// those that came before the clearing are all that it has done.
    #[verifier::external_body]
    pub(crate) fn clear_at(&mut self, publisher: &Publisher<'_>)
        requires
            published(*publisher).shared == polled(*old(self)).shared,
        ensures
            polled(*final(self)) == polled(*old(self)).cleared(published(*publisher).steps.len()),
    {
        self.0.changed.store(false, Ordering::SeqCst)
    }

    /// `AtomicWaker::register` keeps `waker` to be woken, in place of an earlier one.
    #[verifier::external_body]
    pub(crate) fn register(&mut self, waker: &Waker)
        ensures
            polled(*final(self)) == polled(*old(self)).after(PollStep::Register(*waker)),
    {
        self.0.waker.register(waker)
    }
}

} // verus!
