//! The debouncer engine and the read-only view that it hands out.
//!
//! Calls on one engine are serialized by `&mut self`; the view is read
//! against the engine that issued it.
use crate::encoding::{
    init_bit, init_mask, integrator_mask, integrator_max, integrator_of, integrator_one,
    lemma_add_count, lemma_clear_state, lemma_integrator_field, lemma_scaled_high, lemma_set_init,
    lemma_set_state, lemma_take_count, lemma_word_determined, state_bit, state_mask, zero,
};
use crate::model::{initial, run, settled, step};
use crate::policy::{lemma_fits_limit, policy_fits, policy_valid, Debounce};
use std::marker::PhantomData;
use vstd::prelude::*;

verus! {

/// A digital input that the engine samples.
pub trait InputSource {
    /// The error of a failed read.
    type Error;

    /// Whether the input reads high.
    fn is_high(&self) -> Result<bool, Self::Error>;

    /// Whether the input reads low.
    fn is_low(&self) -> Result<bool, Self::Error>;
}

/// Why initialization was refused.
#[derive(Debug)]
pub enum InitError {
    /// The policy cannot be run: its saturated integrator does not fit its
    /// storage width, or its count or width is out of range.
    Configuration,
    /// The engine was already initialized.
    AlreadyInitialized,
}

/// An error that arose during polling.
#[derive(Debug)]
pub enum PollError<PinError> {
    /// The engine was polled before it was initialized.
    Init,
    /// Reading the input failed; the state was left as it was.
    Pin(PinError),
}

/// An error that arose during release.
#[derive(Debug)]
pub enum DeinitError<Cfg: Debounce> {
    /// The engine was not initialized.
    Init,
    /// The view was not issued by this engine; it is handed back.
    Pin(Debounced<Cfg>),
}

/// A debouncer for one input line.
///
/// It holds the packed state word and, while initialized, the input that it
/// samples. `id` names its storage: views carry it, and release accepts only
/// a view that carries the engine's own.
pub struct Debouncer<Pin, Cfg: Debounce> {
    cfg: PhantomData<Cfg>,
    id: u64,
    pin: Option<Pin>,
    storage: u64,
}

/// A read-only view of the logical state of a debouncer.
#[derive(Debug)]
pub struct Debounced<Cfg: Debounce> {
    cfg: PhantomData<Cfg>,
    storage: u64,
}

impl<Pin, Cfg: Debounce> Debouncer<Pin, Cfg> {
    /// The packed state word.
    pub closed spec fn word(&self) -> u64 {
        self.storage
    }

    /// The input held while initialized.
    pub closed spec fn source(&self) -> Option<Pin> {
        self.pin
    }

    /// The name of this engine's storage.
    pub closed spec fn storage_id(&self) -> u64 {
        self.id
    }

    /// The initialized flag of the word.
    pub open spec fn is_initialized(&self) -> bool {
        init_bit(self.word())
    }

    /// The debounced logical state of the word.
    pub open spec fn logical_high(&self) -> bool {
        state_bit(self.word())
    }

    /// The integrator of the word, in counts.
    pub open spec fn integrator(&self) -> nat {
        integrator_of(self.word())
    }

    /// The policy of this engine type can be run.
    pub open spec fn policy_ok() -> bool {
        policy_valid(Cfg::STORAGE_BITS as nat, Cfg::MAX_COUNT as nat)
    }

    /// An uninitialized engine has the zero word and no input; an
    /// initialized one holds its input, a valid policy and a settled
    /// integrator.
    pub open spec fn wf(&self) -> bool {
        &&& self.is_initialized() == self.source() is Some
        &&& !self.is_initialized() ==> self.word() == 0
        &&& self.is_initialized() ==> {
            &&& Self::policy_ok()
            &&& settled(self.integrator(), self.logical_high(), Cfg::MAX_COUNT as nat)
        }
    }

    /// `after` holds the same input and storage name as this engine.
    pub open spec fn keeps_source(&self, after: &Self) -> bool {
        &&& after.source() == self.source()
        &&& after.storage_id() == self.storage_id()
    }

    /// `after` is this engine released: the zero word, no input.
    pub open spec fn released_to(&self, after: &Self) -> bool {
        &&& after.word() == 0
        &&& after.source() is None
        &&& after.storage_id() == self.storage_id()
    }

    /// `after` is this engine initialized with `src`, in the policy's
    /// initial state.
    pub open spec fn started_to(&self, src: Pin, after: &Self) -> bool {
        &&& after.is_initialized()
        &&& (after.integrator(), after.logical_high()) == initial(
            Cfg::INIT_HIGH,
            Cfg::MAX_COUNT as nat,
        )
        &&& after.source() == Some(src)
        &&& after.storage_id() == self.storage_id()
    }

    /// `after` is this engine after one sample (true = low).
    pub open spec fn sampled_to(&self, sample_low: bool, after: &Self) -> bool {
        &&& after.is_initialized()
        &&& (after.integrator(), after.logical_high()) == step(
            self.integrator(),
            self.logical_high(),
            sample_low,
            Cfg::MAX_COUNT as nat,
        )
        &&& self.keeps_source(after)
    }

    /// Releasing an engine and initializing it again with `src` gives the
    /// policy's initial state, whatever either engine went through before:
    /// two engines on the same storage end in the same word with the same
    /// input. The released engine is uninitialized, so initialization under a
    /// policy that fits is not refused.
    pub proof fn lemma_restart_forgets_history(
        a: Self,
        a_released: Self,
        a_restarted: Self,
        b: Self,
        b_released: Self,
        b_restarted: Self,
        src: Pin,
    )
        requires
            a.released_to(&a_released),
            a_released.started_to(src, &a_restarted),
            b.released_to(&b_released),
            b_released.started_to(src, &b_restarted),
            a.storage_id() == b.storage_id(),
        ensures
            !a_released.is_initialized(),
            a_released.wf(),
            (a_restarted.integrator(), a_restarted.logical_high()) == initial(
                Cfg::INIT_HIGH,
                Cfg::MAX_COUNT as nat,
            ),
            a_restarted.word() == b_restarted.word(),
            a_restarted.source() == b_restarted.source(),
            a_restarted.storage_id() == b_restarted.storage_id(),
    {
        assert(!(0u64 & 2u64 != 0)) by (bit_vector);
        lemma_word_determined(a_restarted.word(), b_restarted.word());
    }

    /// An engine that takes samples one after another follows the model:
    /// over a chain of states, each sampled from the one before, the last
    /// integrator and logical state are those of the run of the samples.
    pub proof fn lemma_follows_run(states: Seq<Self>, samples: Seq<bool>)
        requires
            states.len() == samples.len() + 1,
            forall|i: int|
                #![trigger samples[i]]
                0 <= i < samples.len() ==> states[i].sampled_to(samples[i], &states[i + 1]),
        ensures
            (states.last().integrator(), states.last().logical_high()) == run(
                states[0].integrator(),
                states[0].logical_high(),
                samples,
                Cfg::MAX_COUNT as nat,
            ),
        decreases samples.len(),
    {
        if samples.len() > 0 {
            let rest = states.drop_first();
            let later = samples.drop_first();
            assert forall|i: int| #![trigger later[i]] 0 <= i < later.len() implies rest[i].sampled_to(
                later[i],
                &rest[i + 1],
            ) by {
                assert(later[i] == samples[i + 1]);
            }
            assert(states[0].sampled_to(samples[0], &states[1]));
            Self::lemma_follows_run(rest, later);
        }
    }

    /// A new, uninitialized debouncer whose storage is named `id`.
    pub fn uninit(id: u64) -> (r: Self)
        ensures
            r.word() == 0,
            r.source() is None,
            r.storage_id() == id,
            !r.is_initialized(),
            r.wf(),
    {
        Debouncer { cfg: PhantomData, id, pin: None, storage: zero() }
    }

    fn init_flag(&self) -> (r: bool)
        ensures
            r == self.is_initialized(),
    {
        self.storage & init_mask() != zero()
    }

    fn set_state_flag(&mut self)
        ensures
            final(self).logical_high(),
            final(self).is_initialized() == old(self).is_initialized(),
            final(self).integrator() == old(self).integrator(),
            old(self).keeps_source(final(self)),
    {
        proof {
            lemma_set_state(self.storage);
        }
        self.storage = self.storage | state_mask();
    }

    fn clear_state_flag(&mut self)
        ensures
            !final(self).logical_high(),
            final(self).is_initialized() == old(self).is_initialized(),
            final(self).integrator() == old(self).integrator(),
            old(self).keeps_source(final(self)),
    {
        proof {
            lemma_clear_state(self.storage);
        }
        self.storage = self.storage & !state_mask();
    }

    fn integrator_is_zero(&self) -> (r: bool)
        ensures
            r == (self.integrator() == 0),
    {
        proof {
            lemma_integrator_field(self.storage, 0);
        }
        self.storage & integrator_mask() == zero()
    }

    fn integrator_is_max(&self) -> (r: bool)
        requires
            Self::policy_ok(),
        ensures
            r == (self.integrator() == Cfg::MAX_COUNT as nat),
    {
        let max_count: u64 = Cfg::MAX_COUNT;
        proof {
            lemma_fits_limit(Cfg::STORAGE_BITS as nat, Cfg::MAX_COUNT as nat);
            lemma_integrator_field(self.storage, max_count);
        }
        self.storage & integrator_mask() == integrator_max(max_count)
    }

    fn decrement_integrator(&mut self)
        ensures
            final(self).integrator() == if old(self).integrator() == 0 {
                0
            } else {
                (old(self).integrator() - 1) as nat
            },
            final(self).logical_high() == old(self).logical_high(),
            final(self).is_initialized() == old(self).is_initialized(),
            old(self).keeps_source(final(self)),
    {
        if !self.integrator_is_zero() {
            proof {
                lemma_take_count(self.storage);
            }
            self.storage = self.storage - integrator_one();
        }
    }

    fn increment_integrator(&mut self)
        requires
            Self::policy_ok(),
            old(self).integrator() <= Cfg::MAX_COUNT as nat,
        ensures
            final(self).integrator() == if old(self).integrator() == Cfg::MAX_COUNT as nat {
                Cfg::MAX_COUNT as nat
            } else {
                old(self).integrator() + 1
            },
            final(self).logical_high() == old(self).logical_high(),
            final(self).is_initialized() == old(self).is_initialized(),
            old(self).keeps_source(final(self)),
    {
        if !self.integrator_is_max() {
            proof {
                lemma_fits_limit(Cfg::STORAGE_BITS as nat, Cfg::MAX_COUNT as nat);
                lemma_add_count(self.storage);
            }
            self.storage = self.storage + integrator_one();
        }
    }
}

impl<Pin: InputSource, Cfg: Debounce> Debouncer<Pin, Cfg> {
    /// Initializes the engine with the input it will sample, and returns a
    /// view of its logical state.
    ///
    /// Fails, leaving the engine as it was, when the policy's saturated
    /// integrator does not fit its storage width, and otherwise when the
    /// engine is already initialized.
    pub fn init(&mut self, pin: Pin) -> (r: Result<Debounced<Cfg>, InitError>)
        requires
            old(self).wf(),
        ensures
            final(self).wf(),
            (r matches Err(InitError::Configuration)) == !Self::policy_ok(),
            (r matches Err(InitError::AlreadyInitialized)) == (Self::policy_ok() && old(
                self,
            ).is_initialized()),
            r is Err ==> *final(self) == *old(self),
            r is Ok ==> old(self).started_to(pin, final(self)) && r->Ok_0.storage_id()
                == old(self).storage_id(),
    {
        let bits: u32 = Cfg::STORAGE_BITS;
        let max_count: u64 = Cfg::MAX_COUNT;
        if !policy_fits(bits, max_count) {
            return Err(InitError::Configuration);
        }
        if self.init_flag() {
            return Err(InitError::AlreadyInitialized);
        }
        proof {
            lemma_fits_limit(bits as nat, max_count as nat);
        }
        self.pin = Some(pin);
        let mut new_state = if Cfg::INIT_HIGH {
            let scaled: u64 = integrator_max(max_count);
            proof {
                lemma_scaled_high(max_count);
            }
            state_mask() | scaled
        } else {
            zero()
        };
        proof {
            lemma_set_init(new_state);
        }
        new_state = new_state | init_mask();
        self.storage = new_state;
        Ok(Debounced { cfg: PhantomData, storage: self.id })
    }

    /// Applies one sample that was read from the input (true = low).
    ///
    /// A low sample takes one count from the integrator and clears the
    /// logical state once it is empty; any other sample adds one count and
    /// sets the logical state once it is full.
    pub fn poll_sample(&mut self, sample_low: bool) -> (r: Result<(), PollError<Pin::Error>>)
        requires
            old(self).wf(),
        ensures
            final(self).wf(),
            !old(self).is_initialized() ==> (r matches Err(PollError::Init)) && *final(self)
                == *old(self),
            old(self).is_initialized() ==> r is Ok && old(self).sampled_to(sample_low, final(self)),
    {
        if !self.init_flag() {
            return Err(PollError::Init);
        }
        if sample_low {
            self.decrement_integrator();
            if self.integrator_is_zero() {
                self.clear_state_flag();
            }
        } else {
            self.increment_integrator();
            if self.integrator_is_max() {
                self.set_state_flag();
            }
        }
        Ok(())
    }

    /// Samples the input once and applies the sample.
    ///
    /// A failed read leaves the state as it was and hands the error back.
    pub fn poll(&mut self) -> (r: Result<(), PollError<Pin::Error>>)
        requires
            old(self).wf(),
        ensures
            final(self).wf(),
            (r matches Err(PollError::Init)) == !old(self).is_initialized(),
            r is Err ==> *final(self) == *old(self),
            r is Ok ==> old(self).sampled_to(true, final(self)) || old(self).sampled_to(
                false,
                final(self),
            ),
    {
        if !self.init_flag() {
            return Err(PollError::Init);
        }
        let sample = match &self.pin {
            Some(p) => p.is_low(),
            None => {
                return Err(PollError::Init);
            },
        };
        match sample {
            Ok(low) => self.poll_sample(low),
            Err(e) => Err(PollError::Pin(e)),
        }
    }

    /// Releases the engine: hands back its input and returns it to the
    /// uninitialized state, ready to be initialized again.
    ///
    /// Fails, leaving the engine as it was, when it is not initialized, and
    /// otherwise when `pin` was not issued by this engine; `pin` is then
    /// handed back untouched.
    pub fn deinit(&mut self, pin: Debounced<Cfg>) -> (r: Result<Pin, DeinitError<Cfg>>)
        requires
            old(self).wf(),
        ensures
            final(self).wf(),
            !old(self).is_initialized() ==> (r matches Err(DeinitError::Init)) && *final(self)
                == *old(self),
            old(self).is_initialized() && pin.storage_id() != old(self).storage_id() ==> r
                == Err::<Pin, DeinitError<Cfg>>(DeinitError::Pin(pin)) && *final(self) == *old(
                self,
            ),
            old(self).is_initialized() && pin.storage_id() == old(self).storage_id() ==> r
                == Ok::<Pin, DeinitError<Cfg>>(old(self).source()->Some_0) && old(
                self,
            ).released_to(final(self)),
    {
        if !self.init_flag() {
            return Err(DeinitError::Init);
        }
        if self.id != pin.storage {
            return Err(DeinitError::Pin(pin));
        }
        self.storage = zero();
        let taken = self.pin.take();
        match taken {
            Some(p) => Ok(p),
            None => Err(DeinitError::Init),
        }
    }
}

impl<Cfg: Debounce> Debounced<Cfg> {
    /// The name of the storage this view reads.
    pub closed spec fn storage_id(&self) -> u64 {
        self.storage
    }

    /// Whether this view was issued by `engine`.
    pub fn belongs_to<Pin>(&self, engine: &Debouncer<Pin, Cfg>) -> (r: bool)
        ensures
            r == (self.storage_id() == engine.storage_id()),
    {
        self.storage == engine.id
    }

    /// Whether the debounced state is high.
    pub fn is_high<Pin>(&self, engine: &Debouncer<Pin, Cfg>) -> (r: bool)
        requires
            self.storage_id() == engine.storage_id(),
        ensures
            r == engine.logical_high(),
    {
        engine.storage & state_mask() != zero()
    }

    /// Whether the debounced state is low.
    pub fn is_low<Pin>(&self, engine: &Debouncer<Pin, Cfg>) -> (r: bool)
        requires
            self.storage_id() == engine.storage_id(),
        ensures
            r == !engine.logical_high(),
    {
        engine.storage & state_mask() == zero()
    }
}

} // verus!
