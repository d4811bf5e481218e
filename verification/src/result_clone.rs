use vstd::prelude::*;

verus! {

/// `Clone::clone` for `Result`, which the events of the screens carry and which
/// the host clones. Trusted, and claims nothing of the clone: no clause speaks
/// of its value.
pub assume_specification<T, E>[ <std::result::Result<T, E> as std::clone::Clone>::clone ](
    _0: &std::result::Result<T, E>,
) -> std::result::Result<T, E>
    where
        E: std::clone::Clone,
        T: std::clone::Clone,
;

} // verus!
