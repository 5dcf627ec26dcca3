use vstd::prelude::*;

verus! {

/// Maps a value below sixteen to its lower-case hexadecimal digit.
pub open spec fn hex_char(d: nat) -> char {
    if d < 10 {
        ((d + 48) as u8) as char
    } else {
        ((d + 87) as u8) as char
    }
}

/// The `n` lowest hexadecimal digits of `v`, most significant first.
pub open spec fn hex_digits(v: nat, n: nat) -> Seq<char>
    decreases n,
{
    if n == 0 {
        Seq::empty()
    } else {
        hex_digits(v / 16, (n - 1) as nat).push(hex_char(v % 16))
    }
}

/// `hex_digits` gives exactly `n` digits.
pub proof fn lemma_hex_digits_len(v: nat, n: nat)
    ensures
        hex_digits(v, n).len() == n,
    decreases n,
{
    if n > 0 {
        lemma_hex_digits_len(v / 16, (n - 1) as nat);
    }
}

/// Sixteen to the power `n`.
pub open spec fn pow16(n: nat) -> nat
    decreases n,
{
    if n == 0 {
        1
    } else {
        16 * pow16((n - 1) as nat)
    }
}

proof fn lemma_hex_char_injective(a: nat, b: nat)
    requires
        a < 16,
        b < 16,
        hex_char(a) == hex_char(b),
    ensures
        a == b,
{
}

/// Below `16^n`, different values have different digits.
pub proof fn lemma_hex_digits_injective(v: nat, w: nat, n: nat)
    requires
        v < pow16(n),
        w < pow16(n),
        hex_digits(v, n) == hex_digits(w, n),
    ensures
        v == w,
    decreases n,
{
    if n > 0 {
        let m = (n - 1) as nat;
        let sv = hex_digits(v / 16, m);
        let sw = hex_digits(w / 16, m);
        assert(sv.push(hex_char(v % 16)).last() == hex_char(v % 16));
        assert(sw.push(hex_char(w % 16)).last() == hex_char(w % 16));
        lemma_hex_char_injective(v % 16, w % 16);
        assert(sv.push(hex_char(v % 16)).drop_last() =~= sv);
        assert(sw.push(hex_char(w % 16)).drop_last() =~= sw);
        assert(v / 16 < pow16(m)) by (nonlinear_arith)
            requires
                v < 16 * pow16(m),
        ;
        assert(w / 16 < pow16(m)) by (nonlinear_arith)
            requires
                w < 16 * pow16(m),
        ;
        lemma_hex_digits_injective(v / 16, w / 16, m);
    }
}

/// Globally unique identifier of a segment.
#[derive(Clone, Copy, PartialEq, Eq, Structural, Debug, Hash)]
pub struct SegmentId {
    pub id: u128,
}

fn hex_digit_str(d: u8) -> (r: &'static str)
    requires
        d < 16,
    ensures
        r@ == seq![hex_char(d as nat)],
{
    proof {
        reveal_strlit("0");
        reveal_strlit("1");
        reveal_strlit("2");
        reveal_strlit("3");
        reveal_strlit("4");
        reveal_strlit("5");
        reveal_strlit("6");
        reveal_strlit("7");
        reveal_strlit("8");
        reveal_strlit("9");
        reveal_strlit("a");
        reveal_strlit("b");
        reveal_strlit("c");
        reveal_strlit("d");
        reveal_strlit("e");
        reveal_strlit("f");
    }
    match d {
        0 => "0",
        1 => "1",
        2 => "2",
        3 => "3",
        4 => "4",
        5 => "5",
        6 => "6",
        7 => "7",
        8 => "8",
        9 => "9",
        10 => "a",
        11 => "b",
        12 => "c",
        13 => "d",
        14 => "e",
        _ => "f",
    }
}

fn push_hex(s: &mut String, v: u128, n: usize)
    ensures
        final(s)@ == old(s)@ + hex_digits(v as nat, n as nat),
    decreases n,
{
    if n > 0 {
        push_hex(s, v / 16, n - 1);
        s.append(hex_digit_str((v % 16) as u8));
        assert(final(s)@ =~= old(s)@ + hex_digits(v as nat, n as nat));
    }
}

impl SegmentId {
    /// The identifier as 32 lower-case hexadecimal digits.
    pub open spec fn uuid_spec(self) -> Seq<char> {
        hex_digits(self.id as nat, 32)
    }

    /// Different identifiers have different hexadecimal forms.
    pub proof fn lemma_uuid_injective(a: SegmentId, b: SegmentId)
        requires
            a != b,
        ensures
            a.uuid_spec() != b.uuid_spec(),
    {
        reveal_with_fuel(pow16, 33);
        assert(pow16(32) == 0x1_0000_0000_0000_0000_0000_0000_0000_0000nat);
        if a.uuid_spec() == b.uuid_spec() {
            lemma_hex_digits_injective(a.id as nat, b.id as nat, 32);
        }
    }

    /// Wraps a 128-bit identifier.
    pub fn from_u128(id: u128) -> (r: SegmentId)
        ensures
            r.id == id,
    {
        SegmentId { id }
    }

    /// Returns the identifier as 32 lower-case hexadecimal digits.
    pub fn uuid_string(&self) -> (r: String)
        ensures
            r@ == self.uuid_spec(),
    {
        let mut s = String::new();
        push_hex(&mut s, self.id, 32);
        assert(s@ =~= self.uuid_spec());
        s
    }
}

} // verus!
