use vstd::prelude::*;
use vstd::string::*;

verus! {

/// The character that stands for a hexadecimal digit `d` (`d < 16`).
pub open spec fn hex_char(d: u64) -> char {
    if d < 10 {
        (('0' as u64) + d) as char
    } else {
        (('a' as u64) + d - 10) as char
    }
}

/// The `i`-th hexadecimal digit of `n`, most significant first (`i < 16`).
pub open spec fn digit_at(n: u64, i: int) -> u64 {
    (n >> ((60 - 4 * i) as u64)) & 15u64
}

/// The sixteen lower-case hexadecimal digits of `n`.
pub open spec fn hex16(n: u64) -> Seq<char> {
    Seq::new(16, |i: int| hex_char(digit_at(n, i)))
}

/// The text of the identifier issued for sequence number `n`.
pub open spec fn id_text(n: u64) -> Seq<char> {
    seq!['t', 'a', 's', 'k', '-'] + hex16(n)
}

proof fn lemma_digit_bound(n: u64, shift: u64)
    ensures
        (n >> shift) & 15u64 < 16,
{
    assert((n >> shift) & 15u64 < 16) by (bit_vector);
}

proof fn lemma_hex_char_injective(a: u64, b: u64)
    requires
        a < 16,
        b < 16,
        hex_char(a) == hex_char(b),
    ensures
        a == b,
{
}

proof fn lemma_digits_determine(a: u64, b: u64)
    requires
        forall|i: int| 0 <= i < 16 ==> #[trigger] digit_at(a, i) == digit_at(b, i),
    ensures
        a == b,
{
    assert(digit_at(a, 0) == digit_at(b, 0));
    assert(digit_at(a, 1) == digit_at(b, 1));
    assert(digit_at(a, 2) == digit_at(b, 2));
    assert(digit_at(a, 3) == digit_at(b, 3));
    assert(digit_at(a, 4) == digit_at(b, 4));
    assert(digit_at(a, 5) == digit_at(b, 5));
    assert(digit_at(a, 6) == digit_at(b, 6));
    assert(digit_at(a, 7) == digit_at(b, 7));
    assert(digit_at(a, 8) == digit_at(b, 8));
    assert(digit_at(a, 9) == digit_at(b, 9));
    assert(digit_at(a, 10) == digit_at(b, 10));
    assert(digit_at(a, 11) == digit_at(b, 11));
    assert(digit_at(a, 12) == digit_at(b, 12));
    assert(digit_at(a, 13) == digit_at(b, 13));
    assert(digit_at(a, 14) == digit_at(b, 14));
    assert(digit_at(a, 15) == digit_at(b, 15));
    assert(a == b) by (bit_vector)
        requires
            (a >> 60u64) & 15u64 == (b >> 60u64) & 15u64,
            (a >> 56u64) & 15u64 == (b >> 56u64) & 15u64,
            (a >> 52u64) & 15u64 == (b >> 52u64) & 15u64,
            (a >> 48u64) & 15u64 == (b >> 48u64) & 15u64,
            (a >> 44u64) & 15u64 == (b >> 44u64) & 15u64,
            (a >> 40u64) & 15u64 == (b >> 40u64) & 15u64,
            (a >> 36u64) & 15u64 == (b >> 36u64) & 15u64,
            (a >> 32u64) & 15u64 == (b >> 32u64) & 15u64,
            (a >> 28u64) & 15u64 == (b >> 28u64) & 15u64,
            (a >> 24u64) & 15u64 == (b >> 24u64) & 15u64,
            (a >> 20u64) & 15u64 == (b >> 20u64) & 15u64,
            (a >> 16u64) & 15u64 == (b >> 16u64) & 15u64,
            (a >> 12u64) & 15u64 == (b >> 12u64) & 15u64,
            (a >> 8u64) & 15u64 == (b >> 8u64) & 15u64,
            (a >> 4u64) & 15u64 == (b >> 4u64) & 15u64,
            (a >> 0u64) & 15u64 == (b >> 0u64) & 15u64,
    ;
}

/// Identifiers issued for distinct sequence numbers are distinct, and none is empty.
pub proof fn lemma_id_text_injective(a: u64, b: u64)
    ensures
        id_text(a).len() > 0,
        a != b ==> id_text(a) != id_text(b),
{
    if id_text(a) == id_text(b) {
        assert forall|i: int| 0 <= i < 16 implies #[trigger] digit_at(a, i) == digit_at(b, i) by {
            assert(id_text(a)[5 + i] == id_text(b)[5 + i]);
            lemma_digit_bound(a, (60 - 4 * i) as u64);
            lemma_digit_bound(b, (60 - 4 * i) as u64);
            lemma_hex_char_injective(digit_at(a, i), digit_at(b, i));
        }
        lemma_digits_determine(a, b);
    }
}

fn hex_digit_text(d: u64) -> (r: &'static str)
    requires
        d < 16,
    ensures
        r@ == seq![hex_char(d)],
{
    proof {
        reveal_strlit("0");
        reveal_strlit("1");
        reveal_strlit("2");
        reveal_strlit("3");
        reveal_strlit("4");
        reveal_strlit("5");
        reveal_strlit("6");
        reveal_strlit("7");
        reveal_strlit("8");
        reveal_strlit("9");
        reveal_strlit("a");
        reveal_strlit("b");
        reveal_strlit("c");
        reveal_strlit("d");
        reveal_strlit("e");
        reveal_strlit("f");
    }
    match d {
        0 => "0",
        1 => "1",
        2 => "2",
        3 => "3",
        4 => "4",
        5 => "5",
        6 => "6",
        7 => "7",
        8 => "8",
        9 => "9",
        10 => "a",
        11 => "b",
        12 => "c",
        13 => "d",
        14 => "e",
        _ => "f",
    }
}

/// Writes the identifier text of sequence number `n`.
pub fn format_id(n: u64) -> (r: String)
    ensures
        r@ == id_text(n),
{
    proof {
        reveal_strlit("task-");
    }
    let mut text = String::from_str("task-");
    let mut i: u64 = 0;
    while i < 16
        invariant
            i <= 16,
            text@ == seq!['t', 'a', 's', 'k', '-'] + hex16(n).take(i as int),
        decreases 16 - i,
    {
        let shift: u64 = 60 - 4 * i;
        let d: u64 = (n >> shift) & 15u64;
        proof {
            lemma_digit_bound(n, shift);
        }
        let digit = hex_digit_text(d);
        text.append(digit);
        assert(hex16(n).take(i as int + 1) =~= hex16(n).take(i as int).push(hex_char(d)));
        i = i + 1;
    }
    assert(hex16(n).take(16) =~= hex16(n));
    text
}

/// A source of task identifiers: each one it issues differs from all earlier ones.
pub struct IdSource {
    next: u64,
}

impl IdSource {
    /// The number of identifiers issued so far.
    pub closed spec fn issued_count(&self) -> nat {
        self.next as nat
    }

    /// Whether `id` has been issued by this source.
    pub open spec fn has_issued(&self, id: Seq<char>) -> bool {
        exists|k: u64| k < self.issued_count() && id == id_text(k)
    }

    /// Whether this source can issue another identifier.
    pub open spec fn can_issue(&self) -> bool {
        self.issued_count() < u64::MAX
    }

    /// A source that has issued nothing yet.
    pub fn new() -> (r: IdSource)
        ensures
            r.issued_count() == 0,
    {
        IdSource { next: 0 }
    }

    /// Whether another identifier can be issued.
    pub fn has_capacity(&self) -> (r: bool)
        ensures
            r == self.can_issue(),
    {
        self.next < u64::MAX
    }

    /// Issues a fresh, non-empty identifier, distinct from every earlier one.
    pub fn issue(&mut self) -> (r: String)
        requires
            old(self).can_issue(),
        ensures
            r@ == id_text(old(self).issued_count() as u64),
            r@.len() > 0,
            !old(self).has_issued(r@),
            final(self).issued_count() == old(self).issued_count() + 1,
            forall|id: Seq<char>| #[trigger] final(self).has_issued(id) <==> (old(self).has_issued(id) || id == r@),
    {
        let n = self.next;
        let r = format_id(n);
        proof {
            lemma_id_text_injective(n, n);
            assert forall|k: u64| k < n implies id_text(k) != r@ by {
                lemma_id_text_injective(k, n);
            }
        }
        self.next = n + 1;
        proof {
            assert forall|id: Seq<char>| #[trigger] self.has_issued(id) <==> (old(self).has_issued(id) || id == r@) by {
                if self.has_issued(id) {
                    let k = choose|k: u64| k < self.issued_count() && id == id_text(k);
                    if k != n {
                        assert(old(self).has_issued(id));
                    }
                }
                if id == r@ {
                    assert(n < self.issued_count() && id == id_text(n));
                }
                if old(self).has_issued(id) {
                    let k = choose|k: u64| k < old(self).issued_count() && id == id_text(k);
                    assert(k < self.issued_count());
                }
            }
        }
        r
    }
}

} // verus!
