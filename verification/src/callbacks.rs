//! Callbacks: closures that the simulator calls back.
//!
//! The simulator's callback descriptor has room for one word of user data,
//! which it hands back on every invocation. A registration stores its closure
//! in a [`CallbackRegistry`] and gives the simulator the number of the slot as
//! user data. When the simulator fires the callback, the slot number leads
//! back to the closure. No address of a closure ever crosses the boundary.
//!
//! A registry keeps every closure for as long as it lives: the simulator may
//! fire a callback any number of times, and there is no way yet to learn that
//! it never will again.

use crate::native::{NativeTime, Reply, Request};
use crate::object::ObjectHandle;
use crate::result::Error;
use crate::startup::StartupState;
use vstd::prelude::*;

verus! {

/// Collects what a callback needs, before it is registered.
pub struct CallbackBuilder<F> {
    func: Option<F>,
}

/// A point in time, for a callback. A scaled real time is held by the bits of
/// the real number.
#[derive(Clone, Copy, Debug, PartialEq, Eq, Structural)]
pub enum Time {
    ScaledRealTime(u64),
    SimTime { high: u32, low: u32 },
    SuppressTime,
}

/// The kinds of time.
#[derive(Clone, Copy, Debug, PartialEq, Eq, Structural)]
pub enum TimeType {
    ScaledRealTime,
    SimTime,
    SuppressTime,
}

/// Why the simulator calls back.
#[derive(Clone, Copy, Debug, PartialEq, Eq, Structural)]
pub enum CallbackReason {
    AtStartOfSimTime,
}

/// The closures of all callbacks that were registered, each in its slot.
pub struct CallbackRegistry<F> {
    callbacks: Vec<F>,
}

impl TimeType {
    /// The simulator's integer for this kind of time.
    pub open spec fn native_code(self) -> i32 {
        match self {
            TimeType::ScaledRealTime => 1,
            TimeType::SimTime => 2,
            TimeType::SuppressTime => 3,
        }
    }

    pub fn code(self) -> (r: i32)
        ensures
            r == self.native_code(),
    {
        match self {
            TimeType::ScaledRealTime => 1,
            TimeType::SimTime => 2,
            TimeType::SuppressTime => 3,
        }
    }
}

impl CallbackReason {
    /// The simulator's integer for this reason.
    pub open spec fn native_code(self) -> i32 {
        match self {
            CallbackReason::AtStartOfSimTime => 5,
        }
    }

    pub fn code(self) -> (r: i32)
        ensures
            r == self.native_code(),
    {
        match self {
            CallbackReason::AtStartOfSimTime => 5,
        }
    }
}

impl Time {
    /// The time as the simulator holds it: the kind of time, and the parts
    /// that this kind uses. The other parts are zero.
    pub open spec fn native(self) -> NativeTime {
        match self {
            Time::ScaledRealTime(bits) => NativeTime {
                type_: TimeType::ScaledRealTime.native_code(),
                high: 0,
                low: 0,
                real: bits,
            },
            Time::SimTime { high, low } => NativeTime {
                type_: TimeType::SimTime.native_code(),
                high: high,
                low: low,
                real: 0,
            },
            Time::SuppressTime => NativeTime {
                type_: TimeType::SuppressTime.native_code(),
                high: 0,
                low: 0,
                real: 0,
            },
        }
    }
}

/// The time as the simulator holds it.
impl From<Time> for NativeTime {
    fn from(time: Time) -> (r: NativeTime) {
        match time {
            Time::ScaledRealTime(bits) => NativeTime {
                type_: TimeType::ScaledRealTime.code(),
                low: 0,
                high: 0,
                real: bits,
            },
            Time::SimTime { high, low } => NativeTime {
                type_: TimeType::SimTime.code(),
                low: low,
                high: high,
                real: 0,
            },
            Time::SuppressTime => NativeTime {
                type_: TimeType::SuppressTime.code(),
                low: 0,
                high: 0,
                real: 0,
            },
        }
    }
}

impl vstd::std_specs::convert::FromSpecImpl<Time> for NativeTime {
    open spec fn obeys_from_spec() -> bool {
        true
    }

    open spec fn from_spec(time: Time) -> NativeTime {
        time.native()
    }
}

impl<F> View for CallbackRegistry<F> {
    type V = Seq<F>;

    /// The closures, by slot.
    closed spec fn view(&self) -> Seq<F> {
        self.callbacks@
    }
}

impl<F: FnMut()> CallbackRegistry<F> {
    /// A registry without closures.
    pub fn new() -> (r: Self)
        ensures
            r@ == Seq::<F>::empty(),
    {
        CallbackRegistry { callbacks: Vec::new() }
    }

    /// The number of closures, which is the number of the next free slot.
    pub fn len(&self) -> (r: usize)
        ensures
            r == self@.len(),
    {
        self.callbacks.len()
    }

    /// The simulator fired a callback and handed back `user_data`: calls the
    /// closure in that slot, once. The closure stays in its slot, to be called
    /// again whenever the simulator fires the callback again; no other slot is
    /// touched. For user data that no registration gave out nothing is called.
    /// The result is what the simulator expects back from a callback, zero.
    ///
    /// Every closure of the registry must accept a call in whatever state its
    /// earlier calls left it.
    pub fn closure_callback_wrapper(&mut self, user_data: usize) -> (r: i32)
        requires
            forall|f: F| call_requires(f, ()),
        ensures
            r == 0,
            final(self)@.len() == old(self)@.len(),
            forall|i: int|
                0 <= i < old(self)@.len() && i != user_data ==> final(self)@[i] == old(self)@[i],
            user_data < old(self)@.len() ==> call_ensures(old(self)@[user_data as int], (), ()),
    {
        if user_data < self.callbacks.len() {
            let func = &mut self.callbacks[user_data];
            func();
        }
        0
    }
}

impl<F: FnMut()> CallbackBuilder<F> {
    /// The closure that the callback will call, once one was given.
    pub closed spec fn closure(&self) -> Option<F> {
        self.func
    }

    /// A builder without a closure.
    pub fn new() -> (r: CallbackBuilder<F>)
        ensures
            r.closure() is None,
    {
        CallbackBuilder { func: None }
    }

    /// Sets the closure to call. It may be called more than once.
    pub fn call(self, func: F) -> (r: CallbackBuilder<F>)
        ensures
            r.closure() == Some(func),
    {
        let mut builder = self;
        builder.func = Some(func);
        builder
    }

    /// Begins the registration. Callbacks are registered from the main
    /// thread; unlike the other native calls, this one is legal during the
    /// startup phase too. Without a closure there is nothing to register: the
    /// registry stays as it was and no request is made. Otherwise the closure
    /// takes the next free slot of the registry, and the request registers a
    /// callback for the start of simulation time 1 that carries the slot as
    /// user data.
    pub fn register_request(
        self,
        startup: &StartupState,
        thread: u64,
        registry: &mut CallbackRegistry<F>,
    ) -> (r: Result<Request, Box<Error>>)
        requires
            startup.main_thread() == Some(thread),
        ensures
            self.closure() is None ==> final(registry)@ == old(registry)@ && r == Err::<
                Request,
                Box<Error>,
            >(Box::new(Error::InvalidCallbackConfig)),
            self.closure() matches Some(func) ==> final(registry)@ == old(registry)@.push(func)
                && r == Ok::<Request, Box<Error>>(
                Request::RegisterCb {
                    reason: CallbackReason::AtStartOfSimTime.native_code(),
                    time: (Time::SimTime { high: 0, low: 1 }).native(),
                    user_data: old(registry)@.len() as usize,
                },
            ),
    {
        let func = match self.func {
            Some(func) => func,
            None => {
                return Err(Box::new(Error::InvalidCallbackConfig));
            },
        };
        let time = Time::SimTime { high: 0, low: 1 };
        let user_data = registry.callbacks.len();
        registry.callbacks.push(func);
        Ok(
            Request::RegisterCb {
                reason: CallbackReason::AtStartOfSimTime.code(),
                time: NativeTime::from(time),
                user_data,
            },
        )
    }

    /// The handle of a registration, given the simulator's reply: an error of
    /// the call is handed on, and a null handle is an unclassified error.
    pub open spec fn registered(reply: Reply<usize>) -> Result<usize, Box<Error>> {
        match reply.checked() {
            Err(e) => Err(e),
            Ok(raw) => if raw == 0 {
                Err(Box::new(Error::UnknownSimulatorError))
            } else {
                Ok(raw)
            },
        }
    }

    /// Completes the registration: the handle that stands for it.
    pub fn register(reply: Reply<usize>) -> (r: Result<ObjectHandle, Box<Error>>)
        ensures
            Self::registered(reply) matches Err(e) ==> r == Err::<ObjectHandle, Box<Error>>(e),
            Self::registered(reply) matches Ok(raw) ==> r matches Ok(handle) && handle.address()
                == raw,
    {
        let raw_cb_handle = match reply.check() {
            Ok(raw) => raw,
            Err(e) => {
                return Err(e);
            },
        };
        if raw_cb_handle == 0 {
            return Err(Box::new(Error::UnknownSimulatorError));
        }
        Ok(ObjectHandle::from_raw(raw_cb_handle))
    }
}

} // verus!
