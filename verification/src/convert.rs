use vstd::prelude::*;

verus! {

/// The conversion contract consumed by generated code: a value of the
/// implementing type converts into a value of type `T`.
pub trait MigrateInto<T> {
    fn migrate(self) -> T;
}

/// The reflexive instance: any type converts to itself unchanged, so the
/// trivial conversions a promotion generates always have an instance to call.
impl<T> MigrateInto<T> for T {
    fn migrate(self) -> (r: T)
        ensures
            r == self,
    {
        self
    }
}

} // verus!
