//! The closed set of supported reduction cost models.

use vstd::prelude::*;

verus! {

/// Cost models for pricing lattice basis reduction.
///
/// The sieve variants (`BdglSieve`, `QSieve`, `BjgSieve`, `AdpsSieve`,
/// `ChaLoySieve`) and the enumeration variants (`CheNgueEnum`, `AbfEnum`,
/// `AblrEnum`, `LotusEnum`) price a single SVP-oracle call; a full BKZ run
/// multiplies them by a tour count and adds an LLL preprocessing term.
/// `Kyber` and `Matzov` are combined models that price the whole attack
/// directly.  A `bool` payload selects the classical (`true`) or quantum
/// (`false`) regression coefficients of that model.
#[derive(Clone, Copy, Debug, PartialEq, Eq, Structural)]
pub enum Estimates {
    BdglSieve,
    QSieve,
    BjgSieve,
    AdpsSieve(bool),
    ChaLoySieve,
    CheNgueEnum,
    AbfEnum(bool),
    AblrEnum,
    LotusEnum,
    Kyber(bool),
    Matzov(bool),
}

} // verus!
