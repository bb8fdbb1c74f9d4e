//! Mutual exclusion gate.
use vstd::prelude::*;

verus! {

/// Interface on which the `Mutex` relies to effectively perform the
/// locking and the unlocking.
pub trait TBackRawMutex: Sized {
    /// Acquires this mutex, blocking the current thread until it is able
    /// to do so.
    fn do_lock(&self);

    /// Tries to acquire this mutex without blocking the current thread.
    /// Returns `true` when locked successfully, `false` otherwise.
    fn do_try_lock(&self) -> bool;

    /// Unlocks this mutex. Must be called after a successful call to
    /// `do_lock()` or `do_try_lock()`.
    fn do_unlock(&self);
}

/// Interface on which the `Mutex` relies to create the backend without
/// failure.
pub trait TConstCreatBackRawMutex: TBackRawMutex {
    /// Creates the backend.
    fn const_creat() -> Self;
}

/// Interface on which the `Mutex` relies to create the backend with
/// failure.
pub trait TCreatMayFailBackRawMutex: TBackRawMutex {
    /// Customizable creation error type.
    type CreatError;

    /// Creates a new backend, which may fail if, for example, it relies
    /// on services of the operating system.
    fn try_creat() -> Result<Self, Self::CreatError>;
}

/// Checks whether the mutex is already locked: tries to lock it, and
/// unlocks it again when that succeeds. The mutex is reported as locked
/// exactly when the try of the backend to lock it has failed.
pub fn do_is_locked<R: TBackRawMutex>(back_raw_mutex: &R) -> (locked: bool)
    ensures
        call_ensures(R::do_try_lock, (back_raw_mutex,), !locked),
{
    if back_raw_mutex.do_try_lock() {
        back_raw_mutex.do_unlock();
        false
    } else {
        true
    }
}

/// Mutual exclusive gate protector for a customizable data type.
///
/// Relies on a `TBackRawMutex` implementation to effectively protect the
/// data against concurrent access.
pub struct Mutex<R: TBackRawMutex, T> {
    m_back_raw_mutex: R,
    m_held_data: T,
}

impl<R: TBackRawMutex, T> Mutex<R, T> {
    /// The data which the mutex holds.
    pub closed spec fn view(&self) -> T {
        self.m_held_data
    }

    /// The backend of the mutex.
    pub closed spec fn spec_raw_mutex(&self) -> R {
        self.m_back_raw_mutex
    }

    /// Constructs a `Mutex` from his fundamental components.
    pub fn raw_new(back_mutex: R, value: T) -> (mutex: Self)
        ensures
            mutex@ == value,
            mutex.spec_raw_mutex() == back_mutex,
    {
        Self { m_back_raw_mutex: back_mutex, m_held_data: value }
    }

    /// Acquires the `Mutex`, blocking the current thread until it is able
    /// to do so, and returns the reference to the held data: the backend
    /// has locked. The mutex stays acquired until `unlock` is called.
    pub fn lock(&mut self) -> (data: &mut T)
        ensures
            call_ensures(R::do_lock, (&old(self).spec_raw_mutex(),), ()),
            *data == old(self)@,
            final(self)@ == *final(data),
            final(self).spec_raw_mutex() == old(self).spec_raw_mutex(),
    {
        self.m_back_raw_mutex.do_lock();
        &mut self.m_held_data
    }

    /// Tries to acquire the `Mutex`: on success returns the reference to
    /// the held data, and the mutex stays acquired until `unlock` is
    /// called. The data is returned exactly when the try of the backend
    /// to lock has succeeded.
    pub fn try_lock(&mut self) -> (data: Option<&mut T>)
        ensures
            call_ensures(R::do_try_lock, (&old(self).spec_raw_mutex(),), data is Some),
            data is Some ==> *data->0 == old(self)@ && final(self)@ == *final(data->0),
            data is None ==> final(self)@ == old(self)@,
            final(self).spec_raw_mutex() == old(self).spec_raw_mutex(),
    {
        if self.m_back_raw_mutex.do_try_lock() {
            Some(&mut self.m_held_data)
        } else {
            None
        }
    }

    /// Returns the reference to the held data for reading, without
    /// locking: nobody can write the data while `self` is borrowed.
    pub fn get(&self) -> (data: &T)
        ensures
            *data == self@,
    {
        &self.m_held_data
    }

    /// Releases the `Mutex`: the backend has unlocked.
    pub fn unlock(&self)
        ensures
            call_ensures(R::do_unlock, (&self.spec_raw_mutex(),), ()),
    {
        self.m_back_raw_mutex.do_unlock()
    }

    /// Returns the unwrapped inner data.
    pub fn into_inner(self) -> (data: T)
        ensures
            data == self@,
    {
        self.m_held_data
    }

    /// Returns whether this `Mutex` is already locked: exactly when the
    /// try of the backend to lock it has failed.
    pub fn is_locked(&self) -> (locked: bool)
        ensures
            call_ensures(R::do_try_lock, (&self.spec_raw_mutex(),), !locked),
    {
        do_is_locked(&self.m_back_raw_mutex)
    }

    /// Returns the mutable reference to the held data. Since this method
    /// acquires `self` as `&mut` no locking is needed.
    pub fn data_mut(&mut self) -> (data: &mut T)
        ensures
            *data == old(self)@,
            final(self)@ == *final(data),
            final(self).spec_raw_mutex() == old(self).spec_raw_mutex(),
    {
        &mut self.m_held_data
    }
}

impl<R: TConstCreatBackRawMutex, T> Mutex<R, T> {
    /// Constructs a `Mutex` wrapping the given `value` and a backend
    /// which is created without failure.
    pub fn const_new(value: T) -> (mutex: Self)
        ensures
            mutex@ == value,
            call_ensures(R::const_creat, (), mutex.spec_raw_mutex()),
    {
        Self { m_back_raw_mutex: R::const_creat(), m_held_data: value }
    }
}

impl<R: TCreatMayFailBackRawMutex, T> Mutex<R, T> {
    /// Constructs a `Mutex` wrapping the given `value` and a backend
    /// which may fail to be created: the error of the backend is returned
    /// when it does. The mutex is constructed exactly when the backend
    /// was created, and it holds that backend.
    pub fn new(value: T) -> (mutex: Result<Self, R::CreatError>)
        ensures
            match mutex {
                Ok(mutex) => {
                    &&& call_ensures(
                        R::try_creat,
                        (),
                        Ok::<R, R::CreatError>(mutex.spec_raw_mutex()),
                    )
                    &&& mutex@ == value
                },
                Err(error) => call_ensures(R::try_creat, (), Err::<R, R::CreatError>(error)),
            },
    {
        match R::try_creat() {
            Ok(back_mutex) => Ok(Self { m_back_raw_mutex: back_mutex, m_held_data: value }),
            Err(error) => Err(error),
        }
    }
}

} // verus!
