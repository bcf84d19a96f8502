use vstd::prelude::*;

verus! {

/// The value of an ASCII hexadecimal digit, either case.
pub open spec fn hex_digit_value(c: char) -> Option<u8> {
    if '0' <= c && c <= '9' {
        Some((c as u32 - '0' as u32) as u8)
    } else if 'a' <= c && c <= 'f' {
        Some((c as u32 - 'a' as u32 + 10) as u8)
    } else if 'A' <= c && c <= 'F' {
        Some((c as u32 - 'A' as u32 + 10) as u8)
    } else {
        None
    }
}

/// The text after an optional `0x` or `0X` prefix.
pub open spec fn hex_body(s: Seq<char>) -> Seq<char> {
    if s.len() >= 2 && s[0] == '0' && (s[1] == 'x' || s[1] == 'X') {
        s.subrange(2, s.len() as int)
    } else {
        s
    }
}

/// The bytes that a hexadecimal text stands for: an optional `0x` prefix,
/// then an even number of hexadecimal digits, two for each byte.
pub open spec fn hex_text(s: Seq<char>) -> Option<Seq<u8>> {
    let b = hex_body(s);
    if b.len() % 2 == 0 && forall|i: int| 0 <= i < b.len() ==> (#[trigger] hex_digit_value(b[i])) is Some {
        Some(
            Seq::new(
                (b.len() / 2) as nat,
                |i: int| (hex_digit_value(b[2 * i])->0 * 16 + hex_digit_value(b[2 * i + 1])->0) as u8,
            ),
        )
    } else {
        None
    }
}

/// The address that a text stands for: forty hexadecimal digits, with an
/// optional `0x` prefix.
pub open spec fn address_text(s: Seq<char>) -> Option<Seq<u8>> {
    match hex_text(s) {
        Some(b) => if b.len() == 20 {
            Some(b)
        } else {
            None
        },
        None => None,
    }
}

/// A 20-byte account address. Held as bytes, an address has no letter case:
/// texts that differ only in case parse to the same value.
#[derive(Clone, Copy, Debug)]
pub struct Address {
    pub bytes: [u8; 20],
}

impl View for Address {
    type V = Seq<u8>;

    open spec fn view(&self) -> Seq<u8> {
        self.bytes@
    }
}

impl Address {
    /// Whether two addresses hold the same bytes.
    pub fn same(&self, other: &Address) -> (r: bool)
        ensures
            r == (self@ == other@),
    {
        let mut i: usize = 0;
        while i < 20
            invariant
                0 <= i <= 20,
                self@.len() == 20,
                other@.len() == 20,
                forall|j: int| 0 <= j < i ==> self@[j] == other@[j],
            decreases 20 - i,
        {
            if self.bytes[i] != other.bytes[i] {
                return false;
            }
            i = i + 1;
        }
        assert(self@ =~= other@);
        true
    }
}

impl PartialEq for Address {
    fn eq(&self, other: &Address) -> (r: bool) {
        self.same(other)
    }
}

impl vstd::std_specs::cmp::PartialEqSpecImpl for Address {
    open spec fn obeys_eq_spec() -> bool {
        true
    }

    open spec fn eq_spec(&self, other: &Address) -> bool {
        self@ == other@
    }
}

impl Eq for Address {
}

/// Relies on `alloy_primitives::Address::from_str`, which reads the text
/// with `const_hex::decode_to_array`: an odd length fails, a `0x` or `0X`
/// prefix is dropped, exactly forty hexadecimal digits of either case must
/// remain, and each pair of them gives one byte.
#[verifier::external_body]
fn parse_address_bytes(s: &str) -> (r: Option<Address>)
    ensures
        match r {
            Some(a) => address_text(s@) == Some(a@),
            None => address_text(s@) is None,
        },
{
    match <alloy_primitives::Address as std::str::FromStr>::from_str(s) {
        Ok(a) => Some(Address { bytes: a.into_array() }),
        Err(_) => None,
    }
}

/// Relies on `alloy_primitives::hex::decode`: an odd length fails, a `0x`
/// or `0X` prefix is dropped, every remaining character must be a
/// hexadecimal digit of either case, and each pair of them gives one byte.
#[verifier::external_body]
fn decode_hex(s: &str) -> (r: Option<Vec<u8>>)
    ensures
        match r {
            Some(v) => hex_text(s@) == Some(v@),
            None => hex_text(s@) is None,
        },
{
    alloy_primitives::hex::decode(s).ok()
}

/// Parses an address from its hexadecimal text, in any letter case.
pub fn parse_address(s: &str) -> (r: Option<Address>)
    ensures
        match r {
            Some(a) => address_text(s@) == Some(a@),
            None => address_text(s@) is None,
        },
{
    parse_address_bytes(s)
}

/// Decodes a hexadecimal text (with an optional `0x` prefix) into bytes.
pub fn parse_hex(s: &str) -> (r: Option<Vec<u8>>)
    ensures
        match r {
            Some(v) => hex_text(s@) == Some(v@),
            None => hex_text(s@) is None,
        },
{
    decode_hex(s)
}

/// Whether two characters are equal once ASCII letters are taken without
/// their case.
pub open spec fn same_ignoring_case(a: char, b: char) -> bool {
    folded(a) == folded(b)
}

/// The code of a character, with ASCII capitals mapped to small letters.
pub open spec fn folded(c: char) -> u32 {
    if 'A' <= c && c <= 'Z' {
        (c as u32 + 32) as u32
    } else {
        c as u32
    }
}

/// Whether two texts are equal once ASCII letters are taken without their
/// case.
pub open spec fn same_text_ignoring_case(s: Seq<char>, t: Seq<char>) -> bool {
    &&& s.len() == t.len()
    &&& forall|i: int| 0 <= i < s.len() ==> #[trigger] same_ignoring_case(s[i], t[i])
}

proof fn lemma_code_determines(a: char, b: char)
    requires
        a as u32 == b as u32,
    ensures
        a == b,
{
    vstd::utf8::char_u32_cast(a, a as u32);
    vstd::utf8::char_u32_cast(b, b as u32);
}

proof fn lemma_digit_ignores_case(a: char, b: char)
    requires
        same_ignoring_case(a, b),
    ensures
        hex_digit_value(a) == hex_digit_value(b),
{
    broadcast use vstd::utf8::char_u32_cast;

}

/// Hexadecimal text is read without regard to letter case: two texts that
/// differ only in the case of their letters give the same bytes.
pub proof fn lemma_hex_text_ignores_case(s: Seq<char>, t: Seq<char>)
    requires
        same_text_ignoring_case(s, t),
    ensures
        hex_text(s) == hex_text(t),
{
    let bs = hex_body(s);
    let bt = hex_body(t);
    if s.len() >= 2 {
        assert(same_ignoring_case(s[0], t[0]));
        assert(same_ignoring_case(s[1], t[1]));
        if s[0] == '0' || t[0] == '0' {
            lemma_code_determines(s[0], t[0]);
        }
        if s[1] == 'x' || t[1] == 'x' {
            if s[1] as u32 == t[1] as u32 {
                lemma_code_determines(s[1], t[1]);
            } else if s[1] == 'x' {
                lemma_code_determines(t[1], 'X');
            } else {
                lemma_code_determines(s[1], 'X');
            }
        }
        if s[1] == 'X' || t[1] == 'X' {
            if s[1] as u32 == t[1] as u32 {
                lemma_code_determines(s[1], t[1]);
            } else if s[1] == 'X' {
                lemma_code_determines(t[1], 'x');
            } else {
                lemma_code_determines(s[1], 'x');
            }
        }
        assert((s[0] == '0') == (t[0] == '0'));
        assert((s[1] == 'x' || s[1] == 'X') == (t[1] == 'x' || t[1] == 'X'));
    }
    let off: int = s.len() - bs.len();
    assert(bs.len() == bt.len());
    assert forall|i: int| 0 <= i < bs.len() implies hex_digit_value(bs[i]) == hex_digit_value(
        bt[i],
    ) by {
        assert(bs[i] == s[i + off]);
        assert(bt[i] == t[i + off]);
        assert(same_ignoring_case(s[i + off], t[i + off]));
        lemma_digit_ignores_case(s[i + off], t[i + off]);
    }
    if hex_text(s) is Some {
        assert forall|i: int| 0 <= i < bt.len() implies (#[trigger] hex_digit_value(bt[i])) is Some by {
            assert(hex_digit_value(bs[i]) is Some);
        }
        assert(hex_text(s)->0 =~= hex_text(t)->0);
    } else if hex_text(t) is Some {
        assert forall|i: int| 0 <= i < bs.len() implies (#[trigger] hex_digit_value(bs[i])) is Some by {
            assert(hex_digit_value(bt[i]) is Some);
        }
    }
}

/// Addresses are read without regard to letter case.
pub proof fn lemma_address_text_ignores_case(s: Seq<char>, t: Seq<char>)
    requires
        same_text_ignoring_case(s, t),
    ensures
        address_text(s) == address_text(t),
{
    lemma_hex_text_ignores_case(s, t);
}

/// The recipient of a call: the creation of a contract, or a call to an
/// existing address.
#[derive(Clone, Copy, Debug)]
pub enum ToAddress {
    Create,
    Call(Address),
}

/// What a recipient is, as a mathematical value.
pub enum Target {
    Create,
    Call(Seq<u8>),
}

impl View for ToAddress {
    type V = Target;

    open spec fn view(&self) -> Target {
        match self {
            ToAddress::Create => Target::Create,
            ToAddress::Call(a) => Target::Call(a@),
        }
    }
}

/// Whether two recipients are the same: both creations, or calls to the
/// same address.
pub open spec fn same_recipient(a: ToAddress, b: ToAddress) -> bool {
    a@ == b@
}

/// The recipient that a text stands for: `create` or `Create` for a
/// contract creation, else an address.
pub open spec fn recipient_text(s: Seq<char>) -> Option<Target> {
    if s == "create"@ || s == "Create"@ {
        Some(Target::Create)
    } else {
        match address_text(s) {
            Some(b) => Some(Target::Call(b)),
            None => None,
        }
    }
}

impl ToAddress {
    /// Whether two recipients are the same.
    pub fn same(&self, other: &ToAddress) -> (r: bool)
        ensures
            r == same_recipient(*self, *other),
    {
        match (self, other) {
            (ToAddress::Create, ToAddress::Create) => true,
            (ToAddress::Call(x), ToAddress::Call(y)) => x.same(y),
            _ => false,
        }
    }

    /// The recipient's text: `create`, or the address in its checksummed
    /// form.
    pub fn to_text(&self) -> (r: String)
        ensures
            match self {
                ToAddress::Create => r@ == "create"@,
                ToAddress::Call(a) => r@ == checksum_text(a@),
            },
    {
        match self {
            ToAddress::Create => "create".to_string(),
            ToAddress::Call(a) => address_to_text(a),
        }
    }
}

impl PartialEq for ToAddress {
    fn eq(&self, other: &ToAddress) -> (r: bool) {
        self.same(other)
    }
}

impl vstd::std_specs::cmp::PartialEqSpecImpl for ToAddress {
    open spec fn obeys_eq_spec() -> bool {
        true
    }

    open spec fn eq_spec(&self, other: &ToAddress) -> bool {
        same_recipient(*self, *other)
    }
}

impl Eq for ToAddress {
}

/// Whether a text equals another.
pub fn text_is(s: &str, t: &str) -> (r: bool)
    ensures
        r == (s@ == t@),
{
    let a: String = s.to_owned();
    let b: String = t.to_owned();
    a == b
}

impl From<Address> for ToAddress {
    fn from(a: Address) -> (r: ToAddress) {
        ToAddress::Call(a)
    }
}

impl vstd::std_specs::convert::FromSpecImpl<Address> for ToAddress {
    open spec fn obeys_from_spec() -> bool {
        true
    }

    open spec fn from_spec(a: Address) -> ToAddress {
        ToAddress::Call(a)
    }
}

/// Parses a recipient: `create` or `Create` for a contract creation, else
/// an address in any letter case.
pub fn parse_recipient(s: &str) -> (r: Option<ToAddress>)
    ensures
        match r {
            Some(to) => recipient_text(s@) == Some(to@),
            None => recipient_text(s@) is None,
        },
{
    proof {
        reveal_strlit("create");
        reveal_strlit("Create");
    }
    if text_is(s, "create") || text_is(s, "Create") {
        return Some(ToAddress::Create);
    }
    match parse_address(s) {
        Some(a) => Some(ToAddress::Call(a)),
        None => None,
    }
}

/// The text of an address in the mixed-case checksummed form.
pub uninterp spec fn checksum_text(b: Seq<u8>) -> Seq<char>;

/// Relies on `alloy_primitives::Address::to_checksum` (without a chain id)
/// for the checksummed text of an address.
#[verifier::external_body]
fn address_to_text(a: &Address) -> (r: String)
    ensures
        r@ == checksum_text(a@),
{
    alloy_primitives::Address::from(a.bytes).to_checksum(None)
}

} // verus!
