//! Names of window classes.
//!
//! Every window registers a class of its own. The class is named after a
//! freshly generated unique identifier, so that windows opened side by side
//! in one process do not collide and each class can be torn down when its
//! window closes.
use vstd::prelude::*;

verus! {

/// A 128-bit unique identifier, in the four fields the system hands it out in.
#[derive(Clone, Copy, Debug, PartialEq, Eq)]
pub struct Guid {
    pub data1: u32,
    pub data2: u16,
    pub data3: u16,
    pub data4: [u8; 8],
}

/// The upper-case hexadecimal digit for `d`.
pub open spec fn hex_digit(d: nat) -> char
    recommends
        d < 16,
{
    if d < 10 {
        (0x30 + d) as char
    } else {
        (0x37 + d) as char
    }
}

/// The `width` lowest hexadecimal digits of `n`, in upper case, the most
/// significant first: a number with fewer digits is padded with zeros.
pub open spec fn hex_padded(n: nat, width: nat) -> Seq<char>
    decreases width,
{
    if width == 0 {
        Seq::empty()
    } else {
        hex_padded(n / 16, (width - 1) as nat).push(hex_digit(n % 16))
    }
}

/// How many numbers `width` hexadecimal digits tell apart.
pub open spec fn hex_limit(width: nat) -> nat
    decreases width,
{
    if width == 0 {
        1
    } else {
        16 * hex_limit((width - 1) as nat)
    }
}

/// The text form of an identifier: its first field in eight upper-case
/// hexadecimal digits, the second and third in four each, and every byte of
/// the fourth in two, in groups of 8, 4, 4, 4 and 12 digits with dashes
/// between them. The text is closed by a NUL, so that it can be handed to
/// the window system as it is.
pub open spec fn guid_text(g: Guid) -> Seq<char> {
    hex_padded(g.data1 as nat, 8) + seq!['-'] + hex_padded(g.data2 as nat, 4) + seq!['-']
        + hex_padded(g.data3 as nat, 4) + seq!['-'] + hex_padded(g.data4[0] as nat, 2)
        + hex_padded(g.data4[1] as nat, 2) + seq!['-'] + hex_padded(g.data4[2] as nat, 2)
        + hex_padded(g.data4[3] as nat, 2) + hex_padded(g.data4[4] as nat, 2) + hex_padded(
        g.data4[5] as nat,
        2,
    ) + hex_padded(g.data4[6] as nat, 2) + hex_padded(g.data4[7] as nat, 2) + seq!['\0']
}

/// The name of the window class made for the identifier `g`.
pub open spec fn class_name_text(g: Guid) -> Seq<char> {
    "Baseview-"@ + guid_text(g)
}

/// A padded text has exactly as many digits as were asked for.
pub proof fn lemma_hex_padded_len(n: nat, width: nat)
    ensures
        hex_padded(n, width).len() == width,
    decreases width,
{
    if width > 0 {
        lemma_hex_padded_len(n / 16, (width - 1) as nat);
    }
}

/// Numbers that fit into `width` digits and differ have different texts.
pub proof fn lemma_hex_padded_injective(a: nat, b: nat, width: nat)
    requires
        a < hex_limit(width),
        b < hex_limit(width),
        hex_padded(a, width) == hex_padded(b, width),
    ensures
        a == b,
    decreases width,
{
    if width > 0 {
        let rest = (width - 1) as nat;
        let x = hex_padded(a / 16, rest);
        let y = hex_padded(b / 16, rest);
        assert(x.push(hex_digit(a % 16)).drop_last() =~= x);
        assert(y.push(hex_digit(b % 16)).drop_last() =~= y);
        assert(x.push(hex_digit(a % 16)).last() == hex_digit(a % 16));
        assert(y.push(hex_digit(b % 16)).last() == hex_digit(b % 16));
        lemma_hex_padded_injective(a / 16, b / 16, rest);
    }
}

/// Where each field stands in the text of an identifier.
proof fn lemma_guid_text_fields(g: Guid)
    ensures
        guid_text(g).len() == 37,
        guid_text(g).subrange(0, 8) == hex_padded(g.data1 as nat, 8),
        guid_text(g).subrange(9, 13) == hex_padded(g.data2 as nat, 4),
        guid_text(g).subrange(14, 18) == hex_padded(g.data3 as nat, 4),
        guid_text(g).subrange(19, 21) == hex_padded(g.data4[0] as nat, 2),
        guid_text(g).subrange(21, 23) == hex_padded(g.data4[1] as nat, 2),
        guid_text(g).subrange(24, 26) == hex_padded(g.data4[2] as nat, 2),
        guid_text(g).subrange(26, 28) == hex_padded(g.data4[3] as nat, 2),
        guid_text(g).subrange(28, 30) == hex_padded(g.data4[4] as nat, 2),
        guid_text(g).subrange(30, 32) == hex_padded(g.data4[5] as nat, 2),
        guid_text(g).subrange(32, 34) == hex_padded(g.data4[6] as nat, 2),
        guid_text(g).subrange(34, 36) == hex_padded(g.data4[7] as nat, 2),
{
    lemma_hex_padded_len(g.data1 as nat, 8);
    lemma_hex_padded_len(g.data2 as nat, 4);
    lemma_hex_padded_len(g.data3 as nat, 4);
    lemma_hex_padded_len(g.data4[0] as nat, 2);
    lemma_hex_padded_len(g.data4[1] as nat, 2);
    lemma_hex_padded_len(g.data4[2] as nat, 2);
    lemma_hex_padded_len(g.data4[3] as nat, 2);
    lemma_hex_padded_len(g.data4[4] as nat, 2);
    lemma_hex_padded_len(g.data4[5] as nat, 2);
    lemma_hex_padded_len(g.data4[6] as nat, 2);
    lemma_hex_padded_len(g.data4[7] as nat, 2);
    let t = guid_text(g);
    assert(t.subrange(0, 8) =~= hex_padded(g.data1 as nat, 8));
    assert(t.subrange(9, 13) =~= hex_padded(g.data2 as nat, 4));
    assert(t.subrange(14, 18) =~= hex_padded(g.data3 as nat, 4));
    assert(t.subrange(19, 21) =~= hex_padded(g.data4[0] as nat, 2));
    assert(t.subrange(21, 23) =~= hex_padded(g.data4[1] as nat, 2));
    assert(t.subrange(24, 26) =~= hex_padded(g.data4[2] as nat, 2));
    assert(t.subrange(26, 28) =~= hex_padded(g.data4[3] as nat, 2));
    assert(t.subrange(28, 30) =~= hex_padded(g.data4[4] as nat, 2));
    assert(t.subrange(30, 32) =~= hex_padded(g.data4[5] as nat, 2));
    assert(t.subrange(32, 34) =~= hex_padded(g.data4[6] as nat, 2));
    assert(t.subrange(34, 36) =~= hex_padded(g.data4[7] as nat, 2));
}

/// Different identifiers have different texts: every field is written in
/// full width, so the text gives each of them back.
pub proof fn lemma_guid_text_injective(a: Guid, b: Guid)
    ensures
        guid_text(a) == guid_text(b) ==> a == b,
{
    if guid_text(a) == guid_text(b) {
        lemma_guid_text_fields(a);
        lemma_guid_text_fields(b);
        assert(hex_limit(2) == 0x100 && hex_limit(4) == 0x1_0000 && hex_limit(8)
            == 0x1_0000_0000) by {
            reveal_with_fuel(hex_limit, 9);
        }
        lemma_hex_padded_injective(a.data1 as nat, b.data1 as nat, 8);
        lemma_hex_padded_injective(a.data2 as nat, b.data2 as nat, 4);
        lemma_hex_padded_injective(a.data3 as nat, b.data3 as nat, 4);
        assert forall|i: int| 0 <= i < 8 implies a.data4[i] == b.data4[i] by {
            lemma_hex_padded_injective(a.data4[i] as nat, b.data4[i] as nat, 2);
        }
        assert(a.data4 =~= b.data4);
    }
}

/// Different identifiers give different class names.
pub proof fn lemma_class_name_injective(a: Guid, b: Guid)
    ensures
        class_name_text(a) == class_name_text(b) ==> a == b,
{
    if class_name_text(a) == class_name_text(b) {
        let prefix = "Baseview-"@;
        assert(guid_text(a) =~= class_name_text(a).subrange(
            prefix.len() as int,
            class_name_text(a).len() as int,
        ));
        assert(guid_text(b) =~= class_name_text(b).subrange(
            prefix.len() as int,
            class_name_text(b).len() as int,
        ));
        lemma_guid_text_injective(a, b);
    }
}

fn digit_str(d: u32) -> (s: &'static str)
    requires
        d < 16,
    ensures
        s@ == seq![hex_digit(d as nat)],
{
    proof {
        reveal_strlit("0");
        reveal_strlit("1");
        reveal_strlit("2");
        reveal_strlit("3");
        reveal_strlit("4");
        reveal_strlit("5");
        reveal_strlit("6");
        reveal_strlit("7");
        reveal_strlit("8");
        reveal_strlit("9");
        reveal_strlit("A");
        reveal_strlit("B");
        reveal_strlit("C");
        reveal_strlit("D");
        reveal_strlit("E");
        reveal_strlit("F");
    }
    let s: &'static str = match d {
        0 => "0",
        1 => "1",
        2 => "2",
        3 => "3",
        4 => "4",
        5 => "5",
        6 => "6",
        7 => "7",
        8 => "8",
        9 => "9",
        10 => "A",
        11 => "B",
        12 => "C",
        13 => "D",
        14 => "E",
        _ => "F",
    };
    assert(s@ =~= seq![hex_digit(d as nat)]);
    s
}

/// Appends the `width` lowest hexadecimal digits of `n`, padded with zeros.
fn push_hex(out: &mut String, n: u32, width: u32)
    ensures
        final(out)@ == old(out)@ + hex_padded(n as nat, width as nat),
    decreases width,
{
    if width > 0 {
        push_hex(out, n / 16, width - 1);
        out.append(digit_str(n % 16));
    }
    assert(out@ =~= old(out)@ + hex_padded(n as nat, width as nat));
}

fn push_dash(out: &mut String)
    ensures
        final(out)@ == old(out)@ + seq!['-'],
{
    proof {
        reveal_strlit("-");
    }
    out.append("-");
    assert("-"@ =~= seq!['-']);
}

/// Renders an identifier as text.
pub fn format_guid(guid: &Guid) -> (text: String)
    ensures
        text@ == guid_text(*guid),
{
    let mut out = String::new();
    push_hex(&mut out, guid.data1, 8);
    push_dash(&mut out);
    push_hex(&mut out, guid.data2 as u32, 4);
    push_dash(&mut out);
    push_hex(&mut out, guid.data3 as u32, 4);
    push_dash(&mut out);
    push_hex(&mut out, guid.data4[0] as u32, 2);
    push_hex(&mut out, guid.data4[1] as u32, 2);
    push_dash(&mut out);
    push_hex(&mut out, guid.data4[2] as u32, 2);
    push_hex(&mut out, guid.data4[3] as u32, 2);
    push_hex(&mut out, guid.data4[4] as u32, 2);
    push_hex(&mut out, guid.data4[5] as u32, 2);
    push_hex(&mut out, guid.data4[6] as u32, 2);
    push_hex(&mut out, guid.data4[7] as u32, 2);
    proof {
        reveal_strlit("\0");
    }
    out.append("\0");
    assert("\0"@ =~= seq!['\0']);
    assert(out@ =~= guid_text(*guid));
    out
}

/// The name under which the window class for `guid` is registered.
pub fn class_name(guid: &Guid) -> (name: String)
    ensures
        name@ == class_name_text(*guid),
{
    let text = format_guid(guid);
    String::from_str("Baseview-").concat(text.as_str())
}

} // verus!
