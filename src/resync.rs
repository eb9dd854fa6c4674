//! Classification of failed tick transactions and the nonce correction each
//! class calls for.
use vstd::prelude::*;

verus! {

/// Failure text of a tick that lost the race to another tick in the same block.
pub const ALREADY_TICKED: &'static str = "Already ticked this block";

/// Another wording of the same race.
pub const ALREADY_PROCESSED: &'static str = "already processed this block";

/// Failure text of a transaction replaced by a pending one of higher priority.
pub const HIGHER_PRIORITY: &'static str = "higher priority";

/// Another wording of the same replacement.
pub const HIGHER_PRIORITY_HYPHENATED: &'static str = "higher-priority";

/// The class of a failed tick, each with its own correction.
#[derive(Clone, Copy, Debug, PartialEq, Eq, Structural)]
pub enum FailureClass {
    /// Another tick won the race for this block: nothing to correct.
    AlreadyTicked,
    /// A stuck transaction holds the sequence position: jump the nonce forward.
    Superseded,
    /// Anything else: compare the nonce with the ledger's count.
    Other,
}

/// Whether `needle` occurs in `hay` as a contiguous run.
pub open spec fn contains_text(hay: Seq<char>, needle: Seq<char>) -> bool {
    exists|i: int| 0 <= i && i + needle.len() <= hay.len() && #[trigger] hay.subrange(i, i + needle.len()) == needle
}

/// The class of a failure reason; the race texts are tested first.
pub open spec fn classified(reason: Seq<char>) -> FailureClass {
    if contains_text(reason, ALREADY_TICKED@) || contains_text(reason, ALREADY_PROCESSED@) {
        FailureClass::AlreadyTicked
    } else if contains_text(reason, HIGHER_PRIORITY@) || contains_text(
        reason,
        HIGHER_PRIORITY_HYPHENATED@,
    ) {
        FailureClass::Superseded
    } else {
        FailureClass::Other
    }
}

/// The characters of a text, in order.
fn chars_of(s: &str) -> (r: Vec<char>)
    ensures
        r@ == s@,
{
    broadcast use vstd::string::group_string_axioms;

    let mut out: Vec<char> = Vec::new();
    for c in it: s.chars()
        invariant
            it.seq() == s@,
            out@ == it.seq().take(it.index() as int),
    {
        out.push(c);
        assert(out@ =~= it.seq().take(it.index() as int + 1));
    }
    assert(out@ =~= s@);
    out
}

/// Whether `needle` occurs in `hay`.
fn occurs_in(hay: &Vec<char>, needle: &Vec<char>) -> (r: bool)
    ensures
        r == contains_text(hay@, needle@),
{
    if needle.len() > hay.len() {
        return false;
    }
    if needle.len() == 0 {
        assert(hay@.subrange(0int, 0int + needle@.len()) =~= needle@);
        return true;
    }
    let n = hay.len();
    let count = n - needle.len() + 1;
    let mut i: usize = 0;
    while i < count
        invariant
            n == hay@.len(),
            count == hay@.len() - needle@.len() + 1,
            forall|k: int| 0 <= k < i ==> #[trigger] hay@.subrange(k, k + needle@.len()) != needle@,
        decreases count - i,
    {
        let mut j: usize = 0;
        let mut same = true;
        while j < needle.len()
            invariant
                i < count,
                n == hay@.len(),
                count == hay@.len() - needle@.len() + 1,
                j <= needle@.len(),
                same == forall|m: int| 0 <= m < j ==> hay@[i + m] == needle@[m],
            decreases needle@.len() - j,
        {
            assert(i + j < n);
            if hay[i + j] != needle[j] {
                same = false;
            }
            j += 1;
        }
        if same {
            assert(hay@.subrange(i as int, i + needle@.len()) =~= needle@);
            return true;
        }
        proof {
            let m = choose|m: int| 0 <= m < needle@.len() && hay@[i + m] != needle@[m];
            assert(hay@.subrange(i as int, i + needle@.len())[m] != needle@[m]);
        }
        i += 1;
    }
    false
}

/// Classifies the failure reason of a tick transaction.
pub fn classify_failure(reason: &str) -> (r: FailureClass)
    ensures
        r == classified(reason@),
{
    let hay = chars_of(reason);
    if occurs_in(&hay, &chars_of(ALREADY_TICKED)) || occurs_in(&hay, &chars_of(ALREADY_PROCESSED)) {
        FailureClass::AlreadyTicked
    } else if occurs_in(&hay, &chars_of(HIGHER_PRIORITY)) || occurs_in(
        &hay,
        &chars_of(HIGHER_PRIORITY_HYPHENATED),
    ) {
        FailureClass::Superseded
    } else {
        FailureClass::Other
    }
}

} // verus!
