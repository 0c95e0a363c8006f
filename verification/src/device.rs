//! Capture devices as the backend names them, and the text key by which two
//! reports of one device are recognised.

use vstd::prelude::*;
use vstd::std_specs::cmp::PartialEqSpecImpl;
use vstd::string::StringExecFns;
use vstd::string::StrSliceExecFns;

verus! {

/// How the backend addresses a device: by number, or by a name of its own.
#[derive(Clone, Debug, PartialEq, Eq, Hash)]
pub enum DeviceIndex {
    Index(u32),
    Name(String),
}

/// One capture device as the backend reports it. Two descriptors are equal
/// if they are of one device: if index and readable name agree.
#[derive(Clone, Debug)]
pub struct DeviceDescriptor {
    pub index: DeviceIndex,
    pub name: String,
    pub description: String,
    pub misc: String,
}

/// The index of a device, by its characters where it is a name.
#[verifier::ext_equal]
pub enum IndexView {
    Index(u32),
    Name(Seq<char>),
}

/// What makes a device the same device: its index and its readable name.
#[verifier::ext_equal]
pub struct DeviceIdentity {
    pub index: IndexView,
    pub name: Seq<char>,
}

impl DeviceIndex {
    /// The index with a name taken by its characters.
    pub open spec fn view(self) -> IndexView {
        match self {
            DeviceIndex::Index(n) => IndexView::Index(n),
            DeviceIndex::Name(s) => IndexView::Name(s@),
        }
    }
}

impl DeviceDescriptor {
    /// The part of the descriptor by which devices are told apart.
    pub open spec fn identity(self) -> DeviceIdentity {
        DeviceIdentity { index: self.index.view(), name: self.name@ }
    }
}

impl DeviceIdentity {
    /// The number that the key of this identity carries: the index itself,
    /// or the length of the index name.
    pub open spec fn key_number(self) -> nat {
        match self.index {
            IndexView::Index(n) => n as nat,
            IndexView::Name(s) => s.len(),
        }
    }

    /// The number of the key fits the digits that the key has for it. Every
    /// identity of a descriptor in memory is such.
    pub open spec fn well_formed(self) -> bool {
        self.key_number() <= u64::MAX
    }

    /// The key of the identity: a mark that tells a numbered index from a
    /// named one, the number in `KEY_DIGITS` digits, the index name if there
    /// is one, and the readable name. The fixed number of digits, and the
    /// length put before the index name, make two keys equal only where the
    /// identities are.
    pub open spec fn key_text(self) -> Seq<char> {
        match self.index {
            IndexView::Index(n) => seq!['#'] + decimal(n as nat, KEY_DIGITS as nat) + self.name,
            IndexView::Name(s) => seq!['@'] + decimal(s.len(), KEY_DIGITS as nat) + s + self.name,
        }
    }
}

/// The number of decimal digits in a key: enough for every 64-bit number.
pub const KEY_DIGITS: usize = 20;

/// The character of a decimal digit.
pub open spec fn digit_char(d: nat) -> char {
    if d == 0 {
        '0'
    } else if d == 1 {
        '1'
    } else if d == 2 {
        '2'
    } else if d == 3 {
        '3'
    } else if d == 4 {
        '4'
    } else if d == 5 {
        '5'
    } else if d == 6 {
        '6'
    } else if d == 7 {
        '7'
    } else if d == 8 {
        '8'
    } else {
        '9'
    }
}

/// The last `width` decimal digits of `value`, most significant first, with
/// leading zeros.
pub open spec fn decimal(value: nat, width: nat) -> Seq<char>
    decreases width,
{
    if width == 0 {
        Seq::empty()
    } else {
        decimal(value / 10, (width - 1) as nat).push(digit_char(value % 10))
    }
}

/// What is left of `value` above its last `width` decimal digits.
pub open spec fn above_digits(value: nat, width: nat) -> nat
    decreases width,
{
    if width == 0 {
        value
    } else {
        above_digits(value / 10, (width - 1) as nat)
    }
}

pub proof fn lemma_decimal_len(value: nat, width: nat)
    ensures
        decimal(value, width).len() == width,
    decreases width,
{
    if width > 0 {
        lemma_decimal_len(value / 10, (width - 1) as nat);
    }
}

/// Two numbers with the same last digits and the same rest are the same
/// number.
pub proof fn lemma_decimal_injective(a: nat, b: nat, width: nat)
    requires
        decimal(a, width) == decimal(b, width),
        above_digits(a, width) == above_digits(b, width),
    ensures
        a == b,
    decreases width,
{
    if width > 0 {
        let w = (width - 1) as nat;
        let da = decimal(a / 10, w);
        let db = decimal(b / 10, w);
        assert(da.push(digit_char(a % 10)).last() == digit_char(a % 10));
        assert(db.push(digit_char(b % 10)).last() == digit_char(b % 10));
        assert(digit_char(a % 10) == digit_char(b % 10));
        assert(a % 10 == b % 10);
        assert(da.push(digit_char(a % 10)).drop_last() =~= da);
        assert(db.push(digit_char(b % 10)).drop_last() =~= db);
        lemma_decimal_injective(a / 10, b / 10, w);
    }
}

/// A 64-bit number has no more than `KEY_DIGITS` digits.
pub proof fn lemma_u64_has_key_digits(value: nat)
    requires
        value <= u64::MAX,
    ensures
        above_digits(value, KEY_DIGITS as nat) == 0,
{
    reveal_with_fuel(above_digits, 21);
}

fn digit_text(d: u8) -> (text: &'static str)
    requires
        d < 10,
    ensures
        text@ == seq![digit_char(d as nat)],
{
    proof {
        reveal_strlit("0");
        reveal_strlit("1");
        reveal_strlit("2");
        reveal_strlit("3");
        reveal_strlit("4");
        reveal_strlit("5");
        reveal_strlit("6");
        reveal_strlit("7");
        reveal_strlit("8");
        reveal_strlit("9");
    }
    let text: &'static str = match d {
        0 => "0",
        1 => "1",
        2 => "2",
        3 => "3",
        4 => "4",
        5 => "5",
        6 => "6",
        7 => "7",
        8 => "8",
        _ => "9",
    };
    assert(text@ =~= seq![digit_char(d as nat)]);
    text
}

/// Appends the last `width` decimal digits of `value`.
fn append_decimal(out: &mut String, value: u64, width: usize)
    ensures
        final(out)@ == old(out)@ + decimal(value as nat, width as nat),
    decreases width,
{
    if width > 0 {
        append_decimal(out, value / 10, width - 1);
        out.append(digit_text((value % 10) as u8));
        assert(out@ =~= old(out)@ + decimal(value as nat, width as nat));
    } else {
        assert(out@ =~= old(out)@ + decimal(value as nat, width as nat));
    }
}

impl DeviceIndex {
    /// A copy of the index.
    pub fn duplicate(&self) -> (copy: DeviceIndex)
        ensures
            copy == *self,
    {
        match self {
            DeviceIndex::Index(n) => DeviceIndex::Index(*n),
            DeviceIndex::Name(s) => DeviceIndex::Name(s.clone()),
        }
    }

    /// Tells whether two indices address the same device.
    pub fn same_as(&self, other: &DeviceIndex) -> (same: bool)
        ensures
            same == (self.view() == other.view()),
    {
        match (self, other) {
            (DeviceIndex::Index(n), DeviceIndex::Index(m)) => *n == *m,
            (DeviceIndex::Name(s), DeviceIndex::Name(t)) => {
                let same: bool = *s == *t;
                same
            },
            _ => false,
        }
    }
}

impl DeviceDescriptor {
    /// A copy of the descriptor.
    pub fn duplicate(&self) -> (copy: DeviceDescriptor)
        ensures
            copy == *self,
    {
        DeviceDescriptor {
            index: self.index.duplicate(),
            name: self.name.clone(),
            description: self.description.clone(),
            misc: self.misc.clone(),
        }
    }

    /// Tells whether two descriptors are of one device: whether index and
    /// readable name agree. Description and the rest do not count.
    pub fn same_device(&self, other: &DeviceDescriptor) -> (same: bool)
        ensures
            same == (self.identity() == other.identity()),
    {
        let same_name: bool = self.name == other.name;
        self.index.same_as(&other.index) && same_name
    }
}

impl PartialEq for DeviceDescriptor {
    fn eq(&self, other: &DeviceDescriptor) -> (same: bool) {
        self.same_device(other)
    }
}

impl PartialEqSpecImpl for DeviceDescriptor {
    open spec fn obeys_eq_spec() -> bool {
        true
    }

    open spec fn eq_spec(&self, other: &DeviceDescriptor) -> bool {
        self.identity() == other.identity()
    }
}

impl Eq for DeviceDescriptor {

}

/// Builds the key of a device.
pub fn identity_key(device: &DeviceDescriptor) -> (key: String)
    ensures
        key@ == device.identity().key_text(),
        device.identity().well_formed(),
{
    let mut key: String = String::new();
    match &device.index {
        DeviceIndex::Index(n) => {
            proof {
                reveal_strlit("#");
            }
            key.append("#");
            append_decimal(&mut key, *n as u64, KEY_DIGITS);
        },
        DeviceIndex::Name(s) => {
            proof {
                reveal_strlit("@");
            }
            key.append("@");
            append_decimal(&mut key, s.as_str().unicode_len() as u64, KEY_DIGITS);
            key.append(s.as_str());
        },
    }
    key.append(device.name.as_str());
    assert(key@ =~= device.identity().key_text());
    key
}

/// Two devices have the same key only if they have the same index and the
/// same readable name.
pub proof fn lemma_key_text_injective(a: DeviceIdentity, b: DeviceIdentity)
    requires
        a.well_formed(),
        b.well_formed(),
        a.key_text() == b.key_text(),
    ensures
        a == b,
{
    let digits = KEY_DIGITS as int;
    let ka = a.key_text();
    let kb = b.key_text();
    lemma_decimal_len(a.key_number(), KEY_DIGITS as nat);
    lemma_decimal_len(b.key_number(), KEY_DIGITS as nat);
    assert(ka[0] == kb[0]);
    assert(ka.subrange(1, 1 + digits) =~= decimal(a.key_number(), KEY_DIGITS as nat));
    assert(kb.subrange(1, 1 + digits) =~= decimal(b.key_number(), KEY_DIGITS as nat));
    lemma_u64_has_key_digits(a.key_number());
    lemma_u64_has_key_digits(b.key_number());
    lemma_decimal_injective(a.key_number(), b.key_number(), KEY_DIGITS as nat);
    match (a.index, b.index) {
        (IndexView::Index(n), IndexView::Index(m)) => {
            assert(n == m);
            assert(a.name =~= ka.subrange(1 + digits, ka.len() as int));
            assert(b.name =~= kb.subrange(1 + digits, kb.len() as int));
            assert(a.name == b.name);
        },
        (IndexView::Name(s), IndexView::Name(t)) => {
            assert(s.len() == t.len());
            let split = 1 + digits + s.len();
            assert(s =~= ka.subrange(1 + digits, split));
            assert(t =~= kb.subrange(1 + digits, split));
            assert(s == t);
            assert(a.name =~= ka.subrange(split, ka.len() as int));
            assert(b.name =~= kb.subrange(split, kb.len() as int));
            assert(a.name == b.name);
        },
        (IndexView::Index(n), IndexView::Name(t)) => {
            assert(ka[0] == '#' && kb[0] == '@');
        },
        (IndexView::Name(s), IndexView::Index(m)) => {
            assert(ka[0] == '@' && kb[0] == '#');
        },
    }
    assert(a.index == b.index);
}

} // verus!
