use std::sync::Arc;
use vstd::prelude::*;

verus! {

/// Holds the one current configuration value. A snapshot is a shared
/// reference to it: replacing the value leaves every snapshot taken before
/// valid and unchanged.
pub struct ConfigStore<T> {
    current: Arc<T>,
}

impl<T> ConfigStore<T> {
    /// The value that is current.
    pub closed spec fn current(&self) -> Arc<T> {
        self.current
    }

    /// A store whose current value is `initial`.
    pub fn new(initial: Arc<T>) -> (r: Self)
        ensures
            r.current() == initial,
    {
        ConfigStore { current: initial }
    }

    /// The current value.
    pub fn snapshot(&self) -> (r: Arc<T>)
        ensures
            r == self.current(),
    {
        self.current.clone()
    }

    /// Installs `value` as current and hands back the value it replaces.
    pub fn replace(&mut self, value: Arc<T>) -> (previous: Arc<T>)
        ensures
            final(self).current() == value,
            previous == old(self).current(),
    {
        let previous = self.current.clone();
        self.current = value;
        previous
    }
}

} // verus!
