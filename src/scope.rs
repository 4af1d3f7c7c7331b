use vstd::prelude::*;

use vstd::string::StringSliceAdditionalSpecFns;

use crate::error::LedgerError;

verus! {

/// The kind of entity that a transaction request targets.
#[derive(Clone, Copy, Debug, PartialEq, Eq, Structural)]
pub enum TransactionContext {
    Budget,
    FundSource,
}

/// A scope kind together with the identifier of the entity, not yet checked
/// against any caller.
#[derive(Clone, Copy, Debug, PartialEq, Eq, Structural)]
pub struct Scope {
    pub context: TransactionContext,
    pub id: u32,
}

pub open spec fn budget_word() -> Seq<u8> {
    seq![98u8, 117u8, 100u8, 103u8, 101u8, 116u8]
}

pub open spec fn fund_source_word() -> Seq<u8> {
    seq![102u8, 117u8, 110u8, 100u8, 95u8, 115u8, 111u8, 117u8, 114u8, 99u8, 101u8]
}

/// The scope kind that a path segment names, matched byte for byte.
pub open spec fn context_of(segment: Seq<u8>) -> Option<TransactionContext> {
    if segment == budget_word() {
        Some(TransactionContext::Budget)
    } else if segment == fund_source_word() {
        Some(TransactionContext::FundSource)
    } else {
        None
    }
}

pub open spec fn is_digit(b: u8) -> bool {
    48 <= b <= 57
}

pub open spec fn all_digits(s: Seq<u8>) -> bool {
    forall|i: int| 0 <= i < s.len() ==> is_digit(#[trigger] s[i])
}

/// The value of a string of decimal digits, most significant first.
pub open spec fn digits_value(s: Seq<u8>) -> nat
    decreases s.len(),
{
    if s.len() == 0 {
        0
    } else {
        digits_value(s.drop_last()) * 10 + (s.last() - 48) as nat
    }
}

/// The digits of an identifier, after an optional leading `+`.
pub open spec fn id_digits(s: Seq<u8>) -> Seq<u8> {
    if s.len() > 0 && s[0] == 43u8 {
        s.drop_first()
    } else {
        s
    }
}

/// An identifier is one or more decimal digits, optionally after a `+`,
/// whose value fits in 32 bits.
pub open spec fn valid_id(s: Seq<u8>) -> bool {
    let d = id_digits(s);
    d.len() > 0 && all_digits(d) && digits_value(d) <= u32::MAX
}

proof fn lemma_digits_value_grows(s: Seq<u8>, i: int, j: int)
    requires
        0 <= i <= j <= s.len(),
        all_digits(s),
    ensures
        digits_value(s.subrange(0, i)) <= digits_value(s.subrange(0, j)),
    decreases j - i,
{
    if i < j {
        lemma_digits_value_grows(s, i, j - 1);
        assert(s.subrange(0, j).drop_last() =~= s.subrange(0, j - 1));
    }
}

fn bytes_equal(a: &[u8], b: &[u8]) -> (r: bool)
    ensures
        r == (a@ == b@),
{
    if a.len() != b.len() {
        return false;
    }
    let mut i: usize = 0;
    while i < a.len()
        invariant
            a@.len() == b@.len(),
            0 <= i <= a@.len(),
            forall|k: int| 0 <= k < i ==> a@[k] == b@[k],
        decreases a@.len() - i,
    {
        if a[i] != b[i] {
            return false;
        }
        i = i + 1;
    }
    assert(a@ =~= b@);
    true
}

/// Reads a decimal identifier: an optional `+`, then digits, with a value
/// that fits in 32 bits.
pub fn parse_id(text: &str) -> (r: Result<u32, LedgerError>)
    ensures
        valid_id(text.spec_bytes()) ==> r == Ok::<u32, LedgerError>(
            digits_value(id_digits(text.spec_bytes())) as u32,
        ),
        !valid_id(text.spec_bytes()) ==> r == Err::<u32, LedgerError>(LedgerError::InvalidIdentifier),
{
    let s = text.as_bytes();
    let start: usize = if s.len() > 0 && s[0] == 43u8 {
        1
    } else {
        0
    };
    let ghost d = id_digits(s@);
    assert(d =~= s@.subrange(start as int, s@.len() as int));
    if start >= s.len() {
        return Err(LedgerError::InvalidIdentifier);
    }
    let mut value: u64 = 0;
    let mut i: usize = start;
    while i < s.len()
        invariant
            start <= i <= s@.len(),
            s@ == text.spec_bytes(),
            d == id_digits(s@),
            d =~= s@.subrange(start as int, s@.len() as int),
            forall|k: int| 0 <= k < i - start ==> is_digit(#[trigger] d[k]),
            value == digits_value(d.subrange(0, i - start)),
            value <= u32::MAX,
        decreases s@.len() - i,
    {
        let b = s[i];
        assert(d[i - start] == b);
        if b < 48u8 || b > 57u8 {
            assert(!all_digits(d)) by {
                assert(!is_digit(d[i - start]));
            }
            return Err(LedgerError::InvalidIdentifier);
        }
        assert(d.subrange(0, i + 1 - start).drop_last() =~= d.subrange(0, i - start));
        let next = value * 10 + (b - 48u8) as u64;
        if next > 4294967295u64 {
            proof {
                let dd = d.subrange(0, i + 1 - start);
                assert(dd.last() == b);
                assert(digits_value(dd) == next);
                if all_digits(d) {
                    lemma_digits_value_grows(d, i + 1 - start, d.len() as int);
                    assert(d.subrange(0, d.len() as int) =~= d);
                }
            }
            return Err(LedgerError::InvalidIdentifier);
        }
        value = next;
        i = i + 1;
    }
    assert(d.subrange(0, d.len() as int) =~= d);
    Ok(value as u32)
}

impl TransactionContext {
    /// The scope kind named by the first path segment of a ledger route;
    /// any other segment is a route that does not exist.
    pub fn from_request(path_type: &str) -> (r: Result<TransactionContext, LedgerError>)
        ensures
            context_of(path_type.spec_bytes()) matches Some(c) ==> r == Ok::<
                TransactionContext,
                LedgerError,
            >(c),
            context_of(path_type.spec_bytes()) is None ==> r == Err::<
                TransactionContext,
                LedgerError,
            >(LedgerError::NotFound),
    {
        let s = path_type.as_bytes();
        let budget: Vec<u8> = vec![98u8, 117u8, 100u8, 103u8, 101u8, 116u8];
        let fund_source: Vec<u8> = vec![
            102u8,
            117u8,
            110u8,
            100u8,
            95u8,
            115u8,
            111u8,
            117u8,
            114u8,
            99u8,
            101u8,
        ];
        assert(budget@ =~= budget_word());
        assert(fund_source@ =~= fund_source_word());
        if bytes_equal(s, budget.as_slice()) {
            Ok(TransactionContext::Budget)
        } else if bytes_equal(s, fund_source.as_slice()) {
            Ok(TransactionContext::FundSource)
        } else {
            Err(LedgerError::NotFound)
        }
    }
}

/// The scope that a ledger route's two path segments describe: the kind is
/// checked first, then the identifier.
pub open spec fn spec_resolve_scope(path_type: Seq<u8>, path_id: Seq<u8>) -> Result<
    Scope,
    LedgerError,
> {
    match context_of(path_type) {
        None => Err(LedgerError::NotFound),
        Some(c) => if valid_id(path_id) {
            Ok(Scope { context: c, id: digits_value(id_digits(path_id)) as u32 })
        } else {
            Err(LedgerError::InvalidIdentifier)
        },
    }
}

/// Turns the two path segments of a ledger route into an unverified scope.
pub fn resolve_scope(path_type: &str, path_id: &str) -> (r: Result<Scope, LedgerError>)
    ensures
        r == spec_resolve_scope(path_type.spec_bytes(), path_id.spec_bytes()),
{
    let context = match TransactionContext::from_request(path_type) {
        Ok(c) => c,
        Err(e) => return Err(e),
    };
    match parse_id(path_id) {
        Ok(id) => Ok(Scope { context, id }),
        Err(e) => Err(e),
    }
}

} // verus!
