use vstd::prelude::*;

verus! {

/// The apartment model the platform runtime is initialized with, one per
/// process.  The capture pipeline initializes the multithreaded model so
/// the frame-arrived callback may run on a platform-owned worker thread.
#[derive(Clone, Copy, Debug, PartialEq, Eq, Structural)]
pub enum RoInitType {
    MultiThreaded,
    SingleThreaded,
}

impl RoInitType {
    /// The numeric code the runtime-initialization call is given.
    pub fn code(&self) -> (c: i32)
        ensures
            c == (match self {
                RoInitType::MultiThreaded => 0i32,
                RoInitType::SingleThreaded => 1i32,
            }),
    {
        match self {
            RoInitType::MultiThreaded => 0,
            RoInitType::SingleThreaded => 1,
        }
    }
}

/// Which thread a dispatcher queue controller dispatches on.
#[derive(Clone, Copy, Debug, PartialEq, Eq, Structural)]
pub enum DispatcherQueueThreadType {
    Dedicated,
    Current,
}

impl DispatcherQueueThreadType {
    /// The numeric code the controller-creation call is given.
    pub fn code(&self) -> (c: i32)
        ensures
            c == (match self {
                DispatcherQueueThreadType::Dedicated => 1i32,
                DispatcherQueueThreadType::Current => 2i32,
            }),
    {
        match self {
            DispatcherQueueThreadType::Dedicated => 1,
            DispatcherQueueThreadType::Current => 2,
        }
    }
}

/// The apartment a dedicated dispatcher thread is initialized into.
#[derive(Clone, Copy, Debug, PartialEq, Eq, Structural)]
pub enum DispatcherQueueThreadApartmentType {
    NoApartment,
    ASTA,
    STA,
}

impl DispatcherQueueThreadApartmentType {
    /// The numeric code the controller-creation call is given.
    pub fn code(&self) -> (c: i32)
        ensures
            c == (match self {
                DispatcherQueueThreadApartmentType::NoApartment => 0i32,
                DispatcherQueueThreadApartmentType::ASTA => 1i32,
                DispatcherQueueThreadApartmentType::STA => 2i32,
            }),
    {
        match self {
            DispatcherQueueThreadApartmentType::NoApartment => 0,
            DispatcherQueueThreadApartmentType::ASTA => 1,
            DispatcherQueueThreadApartmentType::STA => 2,
        }
    }
}

} // verus!
