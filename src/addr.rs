use vstd::prelude::*;

verus! {

/// A Bluetooth device address: six raw bytes, in the order the host
/// Bluetooth stack keeps them.
#[derive(Debug, Clone, Copy, Default)]
pub struct BtAddr(pub [u8; 6]);

/// Length of the canonical text form `XX:XX:XX:XX:XX:XX`.
pub const ADDR_TEXT_LEN: usize = 17;

/// Whether `c` is an ASCII hexadecimal digit, in either case.
pub open spec fn is_hex_char(c: char) -> bool {
    ('0' <= c && c <= '9') || ('a' <= c && c <= 'f') || ('A' <= c && c <= 'F')
}

/// The value of a hexadecimal digit.
pub open spec fn hex_value(c: char) -> int {
    if '0' <= c && c <= '9' {
        c as int - '0' as int
    } else if 'a' <= c && c <= 'f' {
        c as int - 'a' as int + 10
    } else {
        c as int - 'A' as int + 10
    }
}

/// The upper-case hexadecimal digit for `n < 16`.
pub open spec fn hex_digit(n: int) -> char {
    if n < 10 {
        ('0' as int + n) as char
    } else {
        ('A' as int + n - 10) as char
    }
}

/// The upper-case digit for `n`: `'0'` is 48 and `'A'` is 55 + 10.
fn digit_char(n: u8) -> (c: char)
    requires
        n < 16,
    ensures
        c == hex_digit(n as int),
{
    if n < 10 {
        (48u8 + n) as char
    } else {
        (55u8 + n) as char
    }
}

/// The value of `c` as a hexadecimal digit, if it is one.
fn digit_value(c: char) -> (r: Option<u8>)
    ensures
        r is Some <==> is_hex_char(c),
        r matches Some(v) ==> v as int == hex_value(c) && v < 16,
{
    if '0' <= c && c <= '9' {
        Some((c as u32 - '0' as u32) as u8)
    } else if 'a' <= c && c <= 'f' {
        Some((c as u32 - 'a' as u32 + 10) as u8)
    } else if 'A' <= c && c <= 'F' {
        Some((c as u32 - 'A' as u32 + 10) as u8)
    } else {
        None
    }
}

/// Whether `s` is the canonical text of an address: six groups of two
/// hexadecimal digits, separated by colons.
pub open spec fn is_addr_text(s: Seq<char>) -> bool {
    &&& s.len() == ADDR_TEXT_LEN
    &&& forall|i: int|
        0 <= i < ADDR_TEXT_LEN ==> if i % 3 == 2 {
            #[trigger] s[i] == ':'
        } else {
            is_hex_char(s[i])
        }
}

/// The byte that group `g` of a text stands for (group 0 is the leftmost).
pub open spec fn group_value(s: Seq<char>, g: int) -> int {
    hex_value(s[3 * g]) * 16 + hex_value(s[3 * g + 1])
}

/// The bytes of a well-formed text. As in the host Bluetooth stack, the text
/// lists the bytes from the last to the first: group `g` is byte `5 - g`.
pub open spec fn text_bytes(s: Seq<char>) -> Seq<u8> {
    Seq::new(6, |k: int| group_value(s, 5 - k) as u8)
}

/// What parsing `s` gives: the bytes of a well-formed text, else nothing.
pub open spec fn parse_text(s: Seq<char>) -> Option<Seq<u8>> {
    if is_addr_text(s) {
        Some(text_bytes(s))
    } else {
        None
    }
}

/// Character `i` of the canonical text of the six bytes `a`.
pub open spec fn text_char(a: Seq<u8>, i: int) -> char {
    let b = a[5 - i / 3] as int;
    if i % 3 == 2 {
        ':'
    } else if i % 3 == 0 {
        hex_digit(b / 16)
    } else {
        hex_digit(b % 16)
    }
}

/// The canonical text of the six bytes `a`: upper-case digits, last byte first.
pub open spec fn addr_text(a: Seq<u8>) -> Seq<char> {
    Seq::new(ADDR_TEXT_LEN as nat, |i: int| text_char(a, i))
}

proof fn lemma_hex_digit(n: int)
    requires
        0 <= n < 16,
    ensures
        is_hex_char(hex_digit(n)),
        hex_value(hex_digit(n)) == n,
{
}

/// Parsing the canonical text of an address gives the same address back.
pub proof fn lemma_round_trip(a: BtAddr)
    ensures
        parse_text(addr_text(a@)) == Some(a@),
{
    let t = addr_text(a@);
    assert forall|i: int| 0 <= i < ADDR_TEXT_LEN implies if i % 3 == 2 {
        #[trigger] t[i] == ':'
    } else {
        is_hex_char(t[i])
    } by {
        let b = a@[5 - i / 3] as int;
        lemma_hex_digit(b / 16);
        lemma_hex_digit(b % 16);
    }
    assert forall|k: int| 0 <= k < 6 implies #[trigger] text_bytes(t)[k] == a@[k] by {
        let b = a@[k] as int;
        let g = 5 - k;
        assert((3 * g) / 3 == g && (3 * g) % 3 == 0);
        assert((3 * g + 1) / 3 == g && (3 * g + 1) % 3 == 1);
        lemma_hex_digit(b / 16);
        lemma_hex_digit(b % 16);
    }
    assert(text_bytes(t) =~= a@);
}

/// Relies on String::push: appends one character at the end.
#[verifier::external_body]
fn push_char(s: &mut String, c: char)
    ensures
        final(s)@ == old(s)@.push(c),
{
    s.push(c)
}

impl View for BtAddr {
    type V = Seq<u8>;

    open spec fn view(&self) -> Seq<u8> {
        self.0@
    }
}

impl PartialEq for BtAddr {
    fn eq(&self, other: &BtAddr) -> (r: bool) {
        let mut i: usize = 0;
        while i < 6
            invariant
                i <= 6,
                self@.len() == 6,
                other@.len() == 6,
                forall|j: int| 0 <= j < i ==> self@[j] == other@[j],
            decreases 6 - i,
        {
            if self.0[i] != other.0[i] {
                return false;
            }
            i += 1;
        }
        assert(self@ =~= other@);
        true
    }
}

impl vstd::std_specs::cmp::PartialEqSpecImpl for BtAddr {
    open spec fn obeys_eq_spec() -> bool {
        true
    }

    open spec fn eq_spec(&self, other: &BtAddr) -> bool {
        self@ == other@
    }
}

impl Eq for BtAddr {

}

impl BtAddr {
    /// The all-zero wildcard address.
    pub fn any() -> (r: BtAddr)
        ensures
            r@ == seq![0u8, 0u8, 0u8, 0u8, 0u8, 0u8],
    {
        BtAddr([0, 0, 0, 0, 0, 0])
    }

    /// Parses the canonical text `XX:XX:XX:XX:XX:XX` (hex digits in either
    /// case); any other text gives `None`.
    pub fn from_string(addr: &str) -> (r: Option<BtAddr>)
        ensures
            r is None <==> parse_text(addr@) is None,
            r matches Some(b) ==> parse_text(addr@) == Some(b@),
    {
        let n = addr.unicode_len();
        if n != ADDR_TEXT_LEN {
            return None;
        }
        let mut i: usize = 0;
        while i < ADDR_TEXT_LEN
            invariant
                addr@.len() == ADDR_TEXT_LEN,
                i <= ADDR_TEXT_LEN,
                forall|j: int|
                    0 <= j < i ==> if j % 3 == 2 {
                        #[trigger] addr@[j] == ':'
                    } else {
                        is_hex_char(addr@[j])
                    },
            decreases ADDR_TEXT_LEN - i,
        {
            let c = addr.get_char(i);
            if i % 3 == 2 {
                if c != ':' {
                    return None;
                }
            } else if digit_value(c).is_none() {
                return None;
            }
            i += 1;
        }
        let b0 = Self::group_byte(addr, 5);
        let b1 = Self::group_byte(addr, 4);
        let b2 = Self::group_byte(addr, 3);
        let b3 = Self::group_byte(addr, 2);
        let b4 = Self::group_byte(addr, 1);
        let b5 = Self::group_byte(addr, 0);
        let r = BtAddr([b0, b1, b2, b3, b4, b5]);
        assert(r@ =~= text_bytes(addr@));
        Some(r)
    }

    /// The byte that group `g` of a well-formed text stands for.
    fn group_byte(addr: &str, g: usize) -> (r: u8)
        requires
            is_addr_text(addr@),
            g < 6,
        ensures
            r as int == group_value(addr@, g as int),
    {
        let hi = digit_value(addr.get_char(3 * g)).unwrap();
        let lo = digit_value(addr.get_char(3 * g + 1)).unwrap();
        hi * 16 + lo
    }

    /// The canonical text of the address, with upper-case digits.
    pub fn to_string(&self) -> (r: String)
        ensures
            r@ == addr_text(self@),
    {
        let mut s = String::new();
        let mut g: usize = 0;
        while g < 6
            invariant
                g <= 6,
                self@.len() == 6,
                s@ == addr_text(self@).take(if g == 0 { 0 } else { 3 * g - 1 }),
            decreases 6 - g,
        {
            let b = self.0[5 - g];
            if g > 0 {
                push_char(&mut s, ':');
            }
            push_char(&mut s, digit_char(b / 16));
            push_char(&mut s, digit_char(b % 16));
            g += 1;
        }
        s
    }
}

} // verus!
