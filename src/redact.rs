//! Display-safe rendering of a secret token.
use vstd::prelude::*;
use vstd::string::*;

verus! {

/// Number of trailing characters of a secret that stay visible.
pub const VISIBLE_TAIL: usize = 4;

/// `n` copies of the mask character.
pub open spec fn stars(n: nat) -> Seq<char> {
    Seq::new(n, |i: int| '*')
}

/// The masked form of a secret: every character but the last four becomes
/// `*`; a secret of four characters or fewer is returned as it is.
pub open spec fn masked(s: Seq<char>) -> Seq<char> {
    if s.len() > VISIBLE_TAIL {
        stars((s.len() - VISIBLE_TAIL) as nat) + s.subrange(s.len() - VISIBLE_TAIL, s.len() as int)
    } else {
        s
    }
}

/// Masks a secret for logging: the result has the secret's length, ends with
/// its last four characters and is `*` before them. A secret of at most four
/// characters comes back unchanged.
pub fn mask(secret: &str) -> (r: String)
    ensures
        r@ == masked(secret@),
        r@.len() == secret@.len(),
        secret@.len() > VISIBLE_TAIL ==> r@.subrange(secret@.len() - VISIBLE_TAIL, secret@.len() as int)
            == secret@.subrange(secret@.len() - VISIBLE_TAIL, secret@.len() as int),
        secret@.len() > VISIBLE_TAIL ==> forall|i: int|
            0 <= i < secret@.len() - VISIBLE_TAIL ==> #[trigger] r@[i] == '*',
        secret@.len() <= VISIBLE_TAIL ==> r@ == secret@,
{
    let n = secret.unicode_len();
    if n > VISIBLE_TAIL {
        let hidden: usize = n - VISIBLE_TAIL;
        let mut r = String::new();
        let mut i: usize = 0;
        while i < hidden
            invariant
                i <= hidden,
                r@ == stars(i as nat),
            decreases hidden - i,
        {
            proof {
                reveal_strlit("*");
            }
            r.append("*");
            i += 1;
            assert(r@ =~= stars(i as nat));
        }
        let tail = secret.substring_char(hidden, n);
        r.append(tail);
        assert(r@ =~= masked(secret@));
        assert(r@.subrange(hidden as int, n as int) =~= tail@);
        r
    } else {
        secret.to_owned()
    }
}

} // verus!
