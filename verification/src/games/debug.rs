use vstd::prelude::*;
use crate::input::buttons::ButtonState;
use crate::input::joysticks::JoystickState;

verus! {

/// The character of a decimal digit.
pub open spec fn digit_char(d: int) -> char {
    if d == 0 {
        '0'
    } else if d == 1 {
        '1'
    } else if d == 2 {
        '2'
    } else if d == 3 {
        '3'
    } else if d == 4 {
        '4'
    } else if d == 5 {
        '5'
    } else if d == 6 {
        '6'
    } else if d == 7 {
        '7'
    } else if d == 8 {
        '8'
    } else {
        '9'
    }
}

/// Decimal digits of a natural number, most significant first, without
/// leading zeros.
pub open spec fn nat_text(n: nat) -> Seq<char>
    decreases n,
{
    if n < 10 {
        seq![digit_char(n as int)]
    } else {
        nat_text(n / 10) + seq![digit_char((n % 10) as int)]
    }
}

/// How a signed byte is displayed: a minus sign for negative values, then the
/// decimal digits of its magnitude.
#[verifier::opaque]
pub open spec fn i8_text(v: i8) -> Seq<char> {
    if v < 0 {
        seq!['-'] + nat_text((-v) as nat)
    } else {
        nat_text(v as nat)
    }
}

/// How a flag is displayed.
#[verifier::opaque]
pub open spec fn bool_text(b: bool) -> Seq<char> {
    if b {
        seq!['t', 'r', 'u', 'e']
    } else {
        seq!['f', 'a', 'l', 's', 'e']
    }
}

/// The number a string of decimal digits stands for.
pub open spec fn decimal_value(s: Seq<char>) -> int
    decreases s.len(),
{
    if s.len() == 0 {
        0
    } else {
        decimal_value(s.drop_last()) * 10 + (s.last() as int - '0' as int)
    }
}

/// A string of decimal digits without a leading zero (a lone zero aside).
pub open spec fn is_decimal(s: Seq<char>) -> bool {
    &&& s.len() > 0
    &&& forall|i: int| 0 <= i < s.len() ==> '0' <= #[trigger] s[i] <= '9'
    &&& s.len() > 1 ==> s[0] != '0'
}

proof fn lemma_digit_char(d: int)
    requires
        0 <= d < 10,
    ensures
        '0' <= digit_char(d) <= '9',
        digit_char(d) as int - '0' as int == d,
{
}

/// The text of a number is its decimal digits: they read back as the number,
/// with no leading zero.
pub proof fn lemma_nat_text_decimal(n: nat)
    ensures
        is_decimal(nat_text(n)),
        decimal_value(nat_text(n)) == n,
    decreases n,
{
    let t = nat_text(n);
    if n < 10 {
        lemma_digit_char(n as int);
        assert(t.drop_last() =~= Seq::<char>::empty());
        assert(decimal_value(Seq::<char>::empty()) == 0);
        assert(t[0] == digit_char(n as int));
        assert(decimal_value(t) == decimal_value(t.drop_last()) * 10 + (t.last() as int - '0' as int));
        assert(t.len() == 1);
        assert forall|i: int| 0 <= i < t.len() implies '0' <= #[trigger] t[i] <= '9' by {
            assert(i == 0);
        }
    } else {
        lemma_nat_text_decimal(n / 10);
        lemma_digit_char((n % 10) as int);
        let h = nat_text(n / 10);
        assert(t.drop_last() =~= h);
        assert(t.last() == digit_char((n % 10) as int));
        assert(decimal_value(t) == decimal_value(h) * 10 + (n % 10));
        assert(t[0] == h[0]);
        if h.len() == 1 {
            assert(h.drop_last() =~= Seq::<char>::empty());
            assert(h.last() == h[0]);
            assert(decimal_value(Seq::<char>::empty()) == 0);
            assert(decimal_value(h) == decimal_value(h.drop_last()) * 10 + (h.last() as int - '0' as int));
            assert(decimal_value(h) == h[0] as int - '0' as int);
        }
        assert(t[0] != '0');
        assert forall|i: int| 0 <= i < t.len() implies '0' <= #[trigger] t[i] <= '9' by {
            if i < h.len() {
                assert(t[i] == h[i]);
            }
        }
    }
}

/// A signed byte is shown as its decimal digits, after a minus sign when it
/// is negative: the text reads back as the value.
pub proof fn lemma_i8_text_decimal(v: i8)
    ensures
        v >= 0 ==> is_decimal(i8_text(v)) && decimal_value(i8_text(v)) == v,
        v < 0 ==> i8_text(v)[0] == '-' && is_decimal(i8_text(v).drop_first()) && decimal_value(
            i8_text(v).drop_first(),
        ) == -v,
{
    reveal(i8_text);
    if v >= 0 {
        lemma_nat_text_decimal(v as nat);
    } else {
        lemma_nat_text_decimal((-v) as nat);
        assert(i8_text(v).drop_first() =~= nat_text((-v) as nat));
    }
}

/// Flags are shown as `true` and `false`.
pub proof fn lemma_bool_text(b: bool)
    ensures
        bool_text(true) == seq!['t', 'r', 'u', 'e'],
        bool_text(false) == seq!['f', 'a', 'l', 's', 'e'],
{
    reveal(bool_text);
}

fn digit_str(d: u8) -> (s: &'static str)
    requires
        d < 10,
    ensures
        s@ == seq![digit_char(d as int)],
{
    proof {
        reveal_strlit("0");
        reveal_strlit("1");
        reveal_strlit("2");
        reveal_strlit("3");
        reveal_strlit("4");
        reveal_strlit("5");
        reveal_strlit("6");
        reveal_strlit("7");
        reveal_strlit("8");
        reveal_strlit("9");
    }
    match d {
        0 => "0",
        1 => "1",
        2 => "2",
        3 => "3",
        4 => "4",
        5 => "5",
        6 => "6",
        7 => "7",
        8 => "8",
        _ => "9",
    }
}

fn push_decimal(s: &mut String, n: u8)
    ensures
        final(s)@ == old(s)@ + nat_text(n as nat),
{
    proof {
        reveal_with_fuel(nat_text, 3);
    }
    if n >= 100 {
        s.append(digit_str(n / 100));
        s.append(digit_str((n / 10) % 10));
        s.append(digit_str(n % 10));
        assert(nat_text(n as nat) =~= seq![digit_char((n / 100) as int)] + seq![
            digit_char(((n / 10) % 10) as int),
        ] + seq![digit_char((n % 10) as int)]);
    } else if n >= 10 {
        s.append(digit_str(n / 10));
        s.append(digit_str(n % 10));
        assert(nat_text(n as nat) =~= seq![digit_char((n / 10) as int)] + seq![
            digit_char((n % 10) as int),
        ]);
    } else {
        s.append(digit_str(n));
    }
}

fn push_i8(s: &mut String, v: i8)
    ensures
        final(s)@ == old(s)@ + i8_text(v),
{
    reveal(i8_text);
    if v < 0 {
        proof {
            reveal_strlit("-");
        }
        s.append("-");
        let n: u8 = (-(v as i16)) as u8;
        push_decimal(s, n);
        assert(s@ =~= old(s)@ + i8_text(v));
    } else {
        push_decimal(s, v as u8);
    }
}

fn push_bool(s: &mut String, b: bool)
    ensures
        final(s)@ == old(s)@ + bool_text(b),
{
    reveal(bool_text);
    proof {
        reveal_strlit("true");
        reveal_strlit("false");
    }
    if b {
        s.append("true");
    } else {
        s.append("false");
    }
}

/// The layout of the debug screen: each label followed by its value, then
/// two spaces.
pub open spec fn debug_layout(
    v_x: Seq<char>,
    v_y: Seq<char>,
    v_a: Seq<char>,
    v_b: Seq<char>,
    v_up: Seq<char>,
    v_down: Seq<char>,
    v_left: Seq<char>,
    v_right: Seq<char>,
    v_l1: Seq<char>,
    v_l2: Seq<char>,
    v_r1: Seq<char>,
    v_r2: Seq<char>,
    v_l3: Seq<char>,
    v_r3: Seq<char>,
    v_start: Seq<char>,
    v_select: Seq<char>,
    v_back: Seq<char>,
    v_lx: Seq<char>,
    v_ly: Seq<char>,
    v_rx: Seq<char>,
    v_ry: Seq<char>,
) -> Seq<char> {
    "x :"@ + v_x + ", y  :"@ + v_y + ", a  :"@ + v_a + ",\n b  :"@ + v_b + " up:  "@ + v_up +
        ",\n down:  "@ + v_down + ",\n, left:"@ + v_left + ", right:"@ + v_right + " \n l1:"@ +
        v_l1 + ",l2:"@ + v_l2 + ", r1:"@ + v_r1 + ", r2:"@ + v_r2 + "\n l3:"@ + v_l3 + ", r3:"@ +
        v_r3 + ", start:"@ + v_start + ", select:"@ + v_select + ", back:"@ + v_back + "\n lx :"@
        + v_lx + ", ly :"@ + v_ly + "\n rx :"@ + v_rx + ", ry :"@ + v_ry + "  "@
}

/// The text of the debug screen: all seventeen buttons, then both sticks.
pub open spec fn debug_text_of(b: ButtonState, l: JoystickState, r: JoystickState) -> Seq<char> {
    debug_layout(
        bool_text(b.x),
        bool_text(b.y),
        bool_text(b.a),
        bool_text(b.b),
        bool_text(b.up),
        bool_text(b.down),
        bool_text(b.left),
        bool_text(b.right),
        bool_text(b.l1),
        bool_text(b.l2),
        bool_text(b.r1),
        bool_text(b.r2),
        bool_text(b.l3),
        bool_text(b.r3),
        bool_text(b.start),
        bool_text(b.select),
        bool_text(b.back),
        i8_text(l.x),
        i8_text(l.y),
        i8_text(r.x),
        i8_text(r.y),
    )
}

/// Renders the state of the inputs as the debug screen shows it.
pub fn debug_text(b: &ButtonState, l: &JoystickState, r: &JoystickState) -> (text: String)
    ensures
        text@ == debug_text_of(*b, *l, *r),
{
    let mut s = String::from_str("x :");
    push_bool(&mut s, b.x);
    s.append(", y  :");
    push_bool(&mut s, b.y);
    s.append(", a  :");
    push_bool(&mut s, b.a);
    s.append(",\n b  :");
    push_bool(&mut s, b.b);
    s.append(" up:  ");
    push_bool(&mut s, b.up);
    s.append(",\n down:  ");
    push_bool(&mut s, b.down);
    s.append(",\n, left:");
    push_bool(&mut s, b.left);
    s.append(", right:");
    push_bool(&mut s, b.right);
    s.append(" \n l1:");
    push_bool(&mut s, b.l1);
    s.append(",l2:");
    push_bool(&mut s, b.l2);
    s.append(", r1:");
    push_bool(&mut s, b.r1);
    s.append(", r2:");
    push_bool(&mut s, b.r2);
    s.append("\n l3:");
    push_bool(&mut s, b.l3);
    s.append(", r3:");
    push_bool(&mut s, b.r3);
    s.append(", start:");
    push_bool(&mut s, b.start);
    s.append(", select:");
    push_bool(&mut s, b.select);
    s.append(", back:");
    push_bool(&mut s, b.back);
    s.append("\n lx :");
    push_i8(&mut s, l.x);
    s.append(", ly :");
    push_i8(&mut s, l.y);
    s.append("\n rx :");
    push_i8(&mut s, r.x);
    s.append(", ry :");
    push_i8(&mut s, r.y);
    s.append("  ");
    s
}

/// The text `pre`, then a label and a value, then `post`.
pub open spec fn slot_text(pre: Seq<char>, label: Seq<char>, value: Seq<char>, post: Seq<char>) -> Seq<char> {
    pre + label + value + post
}

/// `text` and `other` are the same around one slot that follows `label`, and
/// that slot shows `value` in `text` and `other_value` in `other`.
pub open spec fn differ_only_in_slot(
    text: Seq<char>,
    other: Seq<char>,
    label: Seq<char>,
    value: Seq<char>,
    other_value: Seq<char>,
) -> bool {
    exists|pre: Seq<char>, post: Seq<char>|
        #[trigger] slot_text(pre, label, value, post) == text && slot_text(
            pre,
            label,
            other_value,
            post,
        ) == other
}

/// `acc` followed by the pieces of `q` in order.
spec fn append_all(acc: Seq<char>, q: Seq<Seq<char>>) -> Seq<char>
    decreases q.len(),
{
    if q.len() == 0 {
        acc
    } else {
        append_all(acc, q.drop_last()) + q.last()
    }
}

broadcast proof fn lemma_append_all_push(acc: Seq<char>, q: Seq<Seq<char>>, x: Seq<char>)
    ensures
        #[trigger] append_all(acc, q.push(x)) == append_all(acc, q) + x,
{
    assert(q.push(x).drop_last() =~= q);
}

proof fn lemma_append_all_regroup(acc: Seq<char>, q: Seq<Seq<char>>)
    ensures
        append_all(acc, q) == acc + append_all(Seq::empty(), q),
    decreases q.len(),
{
    if q.len() == 0 {
        assert(acc + Seq::<char>::empty() =~= acc);
    } else {
        lemma_append_all_regroup(acc, q.drop_last());
        vstd::seq_lib::lemma_concat_associative(
            acc,
            append_all(Seq::empty(), q.drop_last()),
            q.last(),
        );
    }
}

/// Replacing the value after "x :"@ changes the layout only there.
proof fn lemma_layout_slot_x(
    v_x: Seq<char>,
    v_y: Seq<char>,
    v_a: Seq<char>,
    v_b: Seq<char>,
    v_up: Seq<char>,
    v_down: Seq<char>,
    v_left: Seq<char>,
    v_right: Seq<char>,
    v_l1: Seq<char>,
    v_l2: Seq<char>,
    v_r1: Seq<char>,
    v_r2: Seq<char>,
    v_l3: Seq<char>,
    v_r3: Seq<char>,
    v_start: Seq<char>,
    v_select: Seq<char>,
    v_back: Seq<char>,
    v_lx: Seq<char>,
    v_ly: Seq<char>,
    v_rx: Seq<char>,
    v_ry: Seq<char>,
    w: Seq<char>,
)
    ensures
        differ_only_in_slot(
            debug_layout(v_x, v_y, v_a, v_b, v_up, v_down, v_left, v_right, v_l1, v_l2, v_r1, v_r2, v_l3, v_r3, v_start, v_select, v_back, v_lx, v_ly, v_rx, v_ry),
            debug_layout(w, v_y, v_a, v_b, v_up, v_down, v_left, v_right, v_l1, v_l2, v_r1, v_r2, v_l3, v_r3, v_start, v_select, v_back, v_lx, v_ly, v_rx, v_ry),
            "x :"@,
            v_x,
            w,
        ),
{
    broadcast use lemma_append_all_push;

    let pre = Seq::<char>::empty();
    let q = Seq::<Seq<char>>::empty()
        .push(", y  :"@)
        .push(v_y)
        .push(", a  :"@)
        .push(v_a)
        .push(",\n b  :"@)
        .push(v_b)
        .push(" up:  "@)
        .push(v_up)
        .push(",\n down:  "@)
        .push(v_down)
        .push(",\n, left:"@)
        .push(v_left)
        .push(", right:"@)
        .push(v_right)
        .push(" \n l1:"@)
        .push(v_l1)
        .push(",l2:"@)
        .push(v_l2)
        .push(", r1:"@)
        .push(v_r1)
        .push(", r2:"@)
        .push(v_r2)
        .push("\n l3:"@)
        .push(v_l3)
        .push(", r3:"@)
        .push(v_r3)
        .push(", start:"@)
        .push(v_start)
        .push(", select:"@)
        .push(v_select)
        .push(", back:"@)
        .push(v_back)
        .push("\n lx :"@)
        .push(v_lx)
        .push(", ly :"@)
        .push(v_ly)
        .push("\n rx :"@)
        .push(v_rx)
        .push(", ry :"@)
        .push(v_ry)
        .push("  "@);
    assert(Seq::<char>::empty() + "x :"@ =~= "x :"@);
    assert(append_all(pre + "x :"@ + v_x, Seq::empty()) == pre + "x :"@ + v_x);
    assert(append_all(pre + "x :"@ + w, Seq::empty()) == pre + "x :"@ + w);
    assert(debug_layout(v_x, v_y, v_a, v_b, v_up, v_down, v_left, v_right, v_l1, v_l2, v_r1, v_r2, v_l3, v_r3, v_start, v_select, v_back, v_lx, v_ly, v_rx, v_ry) == append_all(pre + "x :"@ + v_x, q));
    assert(debug_layout(w, v_y, v_a, v_b, v_up, v_down, v_left, v_right, v_l1, v_l2, v_r1, v_r2, v_l3, v_r3, v_start, v_select, v_back, v_lx, v_ly, v_rx, v_ry) == append_all(pre + "x :"@ + w, q));
    lemma_append_all_regroup(pre + "x :"@ + v_x, q);
    lemma_append_all_regroup(pre + "x :"@ + w, q);
    let post = append_all(Seq::empty(), q);
    assert(slot_text(pre, "x :"@, v_x, post) == debug_layout(v_x, v_y, v_a, v_b, v_up, v_down, v_left, v_right, v_l1, v_l2, v_r1, v_r2, v_l3, v_r3, v_start, v_select, v_back, v_lx, v_ly, v_rx, v_ry));
}

/// Replacing the value after ", y  :"@ changes the layout only there.
proof fn lemma_layout_slot_y(
    v_x: Seq<char>,
    v_y: Seq<char>,
    v_a: Seq<char>,
    v_b: Seq<char>,
    v_up: Seq<char>,
    v_down: Seq<char>,
    v_left: Seq<char>,
    v_right: Seq<char>,
    v_l1: Seq<char>,
    v_l2: Seq<char>,
    v_r1: Seq<char>,
    v_r2: Seq<char>,
    v_l3: Seq<char>,
    v_r3: Seq<char>,
    v_start: Seq<char>,
    v_select: Seq<char>,
    v_back: Seq<char>,
    v_lx: Seq<char>,
    v_ly: Seq<char>,
    v_rx: Seq<char>,
    v_ry: Seq<char>,
    w: Seq<char>,
)
    ensures
        differ_only_in_slot(
            debug_layout(v_x, v_y, v_a, v_b, v_up, v_down, v_left, v_right, v_l1, v_l2, v_r1, v_r2, v_l3, v_r3, v_start, v_select, v_back, v_lx, v_ly, v_rx, v_ry),
            debug_layout(v_x, w, v_a, v_b, v_up, v_down, v_left, v_right, v_l1, v_l2, v_r1, v_r2, v_l3, v_r3, v_start, v_select, v_back, v_lx, v_ly, v_rx, v_ry),
            ", y  :"@,
            v_y,
            w,
        ),
{
    broadcast use lemma_append_all_push;

    let pre = "x :"@ + v_x;
    let q = Seq::<Seq<char>>::empty()
        .push(", a  :"@)
        .push(v_a)
        .push(",\n b  :"@)
        .push(v_b)
        .push(" up:  "@)
        .push(v_up)
        .push(",\n down:  "@)
        .push(v_down)
        .push(",\n, left:"@)
        .push(v_left)
        .push(", right:"@)
        .push(v_right)
        .push(" \n l1:"@)
        .push(v_l1)
        .push(",l2:"@)
        .push(v_l2)
        .push(", r1:"@)
        .push(v_r1)
        .push(", r2:"@)
        .push(v_r2)
        .push("\n l3:"@)
        .push(v_l3)
        .push(", r3:"@)
        .push(v_r3)
        .push(", start:"@)
        .push(v_start)
        .push(", select:"@)
        .push(v_select)
        .push(", back:"@)
        .push(v_back)
        .push("\n lx :"@)
        .push(v_lx)
        .push(", ly :"@)
        .push(v_ly)
        .push("\n rx :"@)
        .push(v_rx)
        .push(", ry :"@)
        .push(v_ry)
        .push("  "@);
    assert(Seq::<char>::empty() + "x :"@ =~= "x :"@);
    assert(append_all(pre + ", y  :"@ + v_y, Seq::empty()) == pre + ", y  :"@ + v_y);
    assert(append_all(pre + ", y  :"@ + w, Seq::empty()) == pre + ", y  :"@ + w);
    assert(debug_layout(v_x, v_y, v_a, v_b, v_up, v_down, v_left, v_right, v_l1, v_l2, v_r1, v_r2, v_l3, v_r3, v_start, v_select, v_back, v_lx, v_ly, v_rx, v_ry) == append_all(pre + ", y  :"@ + v_y, q));
    assert(debug_layout(v_x, w, v_a, v_b, v_up, v_down, v_left, v_right, v_l1, v_l2, v_r1, v_r2, v_l3, v_r3, v_start, v_select, v_back, v_lx, v_ly, v_rx, v_ry) == append_all(pre + ", y  :"@ + w, q));
    lemma_append_all_regroup(pre + ", y  :"@ + v_y, q);
    lemma_append_all_regroup(pre + ", y  :"@ + w, q);
    let post = append_all(Seq::empty(), q);
    assert(slot_text(pre, ", y  :"@, v_y, post) == debug_layout(v_x, v_y, v_a, v_b, v_up, v_down, v_left, v_right, v_l1, v_l2, v_r1, v_r2, v_l3, v_r3, v_start, v_select, v_back, v_lx, v_ly, v_rx, v_ry));
}

/// Replacing the value after ", a  :"@ changes the layout only there.
proof fn lemma_layout_slot_a(
    v_x: Seq<char>,
    v_y: Seq<char>,
    v_a: Seq<char>,
    v_b: Seq<char>,
    v_up: Seq<char>,
    v_down: Seq<char>,
    v_left: Seq<char>,
    v_right: Seq<char>,
    v_l1: Seq<char>,
    v_l2: Seq<char>,
    v_r1: Seq<char>,
    v_r2: Seq<char>,
    v_l3: Seq<char>,
    v_r3: Seq<char>,
    v_start: Seq<char>,
    v_select: Seq<char>,
    v_back: Seq<char>,
    v_lx: Seq<char>,
    v_ly: Seq<char>,
    v_rx: Seq<char>,
    v_ry: Seq<char>,
    w: Seq<char>,
)
    ensures
        differ_only_in_slot(
            debug_layout(v_x, v_y, v_a, v_b, v_up, v_down, v_left, v_right, v_l1, v_l2, v_r1, v_r2, v_l3, v_r3, v_start, v_select, v_back, v_lx, v_ly, v_rx, v_ry),
            debug_layout(v_x, v_y, w, v_b, v_up, v_down, v_left, v_right, v_l1, v_l2, v_r1, v_r2, v_l3, v_r3, v_start, v_select, v_back, v_lx, v_ly, v_rx, v_ry),
            ", a  :"@,
            v_a,
            w,
        ),
{
    broadcast use lemma_append_all_push;

    let pre = "x :"@ + v_x + ", y  :"@ + v_y;
    let q = Seq::<Seq<char>>::empty()
        .push(",\n b  :"@)
        .push(v_b)
        .push(" up:  "@)
        .push(v_up)
        .push(",\n down:  "@)
        .push(v_down)
        .push(",\n, left:"@)
        .push(v_left)
        .push(", right:"@)
        .push(v_right)
        .push(" \n l1:"@)
        .push(v_l1)
        .push(",l2:"@)
        .push(v_l2)
        .push(", r1:"@)
        .push(v_r1)
        .push(", r2:"@)
        .push(v_r2)
        .push("\n l3:"@)
        .push(v_l3)
        .push(", r3:"@)
        .push(v_r3)
        .push(", start:"@)
        .push(v_start)
        .push(", select:"@)
        .push(v_select)
        .push(", back:"@)
        .push(v_back)
        .push("\n lx :"@)
        .push(v_lx)
        .push(", ly :"@)
        .push(v_ly)
        .push("\n rx :"@)
        .push(v_rx)
        .push(", ry :"@)
        .push(v_ry)
        .push("  "@);
    assert(Seq::<char>::empty() + "x :"@ =~= "x :"@);
    assert(append_all(pre + ", a  :"@ + v_a, Seq::empty()) == pre + ", a  :"@ + v_a);
    assert(append_all(pre + ", a  :"@ + w, Seq::empty()) == pre + ", a  :"@ + w);
    assert(debug_layout(v_x, v_y, v_a, v_b, v_up, v_down, v_left, v_right, v_l1, v_l2, v_r1, v_r2, v_l3, v_r3, v_start, v_select, v_back, v_lx, v_ly, v_rx, v_ry) == append_all(pre + ", a  :"@ + v_a, q));
    assert(debug_layout(v_x, v_y, w, v_b, v_up, v_down, v_left, v_right, v_l1, v_l2, v_r1, v_r2, v_l3, v_r3, v_start, v_select, v_back, v_lx, v_ly, v_rx, v_ry) == append_all(pre + ", a  :"@ + w, q));
    lemma_append_all_regroup(pre + ", a  :"@ + v_a, q);
    lemma_append_all_regroup(pre + ", a  :"@ + w, q);
    let post = append_all(Seq::empty(), q);
    assert(slot_text(pre, ", a  :"@, v_a, post) == debug_layout(v_x, v_y, v_a, v_b, v_up, v_down, v_left, v_right, v_l1, v_l2, v_r1, v_r2, v_l3, v_r3, v_start, v_select, v_back, v_lx, v_ly, v_rx, v_ry));
}

/// Replacing the value after ",\n b  :"@ changes the layout only there.
proof fn lemma_layout_slot_b(
    v_x: Seq<char>,
    v_y: Seq<char>,
    v_a: Seq<char>,
    v_b: Seq<char>,
    v_up: Seq<char>,
    v_down: Seq<char>,
    v_left: Seq<char>,
    v_right: Seq<char>,
    v_l1: Seq<char>,
    v_l2: Seq<char>,
    v_r1: Seq<char>,
    v_r2: Seq<char>,
    v_l3: Seq<char>,
    v_r3: Seq<char>,
    v_start: Seq<char>,
    v_select: Seq<char>,
    v_back: Seq<char>,
    v_lx: Seq<char>,
    v_ly: Seq<char>,
    v_rx: Seq<char>,
    v_ry: Seq<char>,
    w: Seq<char>,
)
    ensures
        differ_only_in_slot(
            debug_layout(v_x, v_y, v_a, v_b, v_up, v_down, v_left, v_right, v_l1, v_l2, v_r1, v_r2, v_l3, v_r3, v_start, v_select, v_back, v_lx, v_ly, v_rx, v_ry),
            debug_layout(v_x, v_y, v_a, w, v_up, v_down, v_left, v_right, v_l1, v_l2, v_r1, v_r2, v_l3, v_r3, v_start, v_select, v_back, v_lx, v_ly, v_rx, v_ry),
            ",\n b  :"@,
            v_b,
            w,
        ),
{
    broadcast use lemma_append_all_push;

    let pre = "x :"@ + v_x + ", y  :"@ + v_y + ", a  :"@ + v_a;
    let q = Seq::<Seq<char>>::empty()
        .push(" up:  "@)
        .push(v_up)
        .push(",\n down:  "@)
        .push(v_down)
        .push(",\n, left:"@)
        .push(v_left)
        .push(", right:"@)
        .push(v_right)
        .push(" \n l1:"@)
        .push(v_l1)
        .push(",l2:"@)
        .push(v_l2)
        .push(", r1:"@)
        .push(v_r1)
        .push(", r2:"@)
        .push(v_r2)
        .push("\n l3:"@)
        .push(v_l3)
        .push(", r3:"@)
        .push(v_r3)
        .push(", start:"@)
        .push(v_start)
        .push(", select:"@)
        .push(v_select)
        .push(", back:"@)
        .push(v_back)
        .push("\n lx :"@)
        .push(v_lx)
        .push(", ly :"@)
        .push(v_ly)
        .push("\n rx :"@)
        .push(v_rx)
        .push(", ry :"@)
        .push(v_ry)
        .push("  "@);
    assert(Seq::<char>::empty() + "x :"@ =~= "x :"@);
    assert(append_all(pre + ",\n b  :"@ + v_b, Seq::empty()) == pre + ",\n b  :"@ + v_b);
    assert(append_all(pre + ",\n b  :"@ + w, Seq::empty()) == pre + ",\n b  :"@ + w);
    assert(debug_layout(v_x, v_y, v_a, v_b, v_up, v_down, v_left, v_right, v_l1, v_l2, v_r1, v_r2, v_l3, v_r3, v_start, v_select, v_back, v_lx, v_ly, v_rx, v_ry) == append_all(pre + ",\n b  :"@ + v_b, q));
    assert(debug_layout(v_x, v_y, v_a, w, v_up, v_down, v_left, v_right, v_l1, v_l2, v_r1, v_r2, v_l3, v_r3, v_start, v_select, v_back, v_lx, v_ly, v_rx, v_ry) == append_all(pre + ",\n b  :"@ + w, q));
    lemma_append_all_regroup(pre + ",\n b  :"@ + v_b, q);
    lemma_append_all_regroup(pre + ",\n b  :"@ + w, q);
    let post = append_all(Seq::empty(), q);
    assert(slot_text(pre, ",\n b  :"@, v_b, post) == debug_layout(v_x, v_y, v_a, v_b, v_up, v_down, v_left, v_right, v_l1, v_l2, v_r1, v_r2, v_l3, v_r3, v_start, v_select, v_back, v_lx, v_ly, v_rx, v_ry));
}

/// Replacing the value after " up:  "@ changes the layout only there.
proof fn lemma_layout_slot_up(
    v_x: Seq<char>,
    v_y: Seq<char>,
    v_a: Seq<char>,
    v_b: Seq<char>,
    v_up: Seq<char>,
    v_down: Seq<char>,
    v_left: Seq<char>,
    v_right: Seq<char>,
    v_l1: Seq<char>,
    v_l2: Seq<char>,
    v_r1: Seq<char>,
    v_r2: Seq<char>,
    v_l3: Seq<char>,
    v_r3: Seq<char>,
    v_start: Seq<char>,
    v_select: Seq<char>,
    v_back: Seq<char>,
    v_lx: Seq<char>,
    v_ly: Seq<char>,
    v_rx: Seq<char>,
    v_ry: Seq<char>,
    w: Seq<char>,
)
    ensures
        differ_only_in_slot(
            debug_layout(v_x, v_y, v_a, v_b, v_up, v_down, v_left, v_right, v_l1, v_l2, v_r1, v_r2, v_l3, v_r3, v_start, v_select, v_back, v_lx, v_ly, v_rx, v_ry),
            debug_layout(v_x, v_y, v_a, v_b, w, v_down, v_left, v_right, v_l1, v_l2, v_r1, v_r2, v_l3, v_r3, v_start, v_select, v_back, v_lx, v_ly, v_rx, v_ry),
            " up:  "@,
            v_up,
            w,
        ),
{
    broadcast use lemma_append_all_push;

    let pre = "x :"@ + v_x + ", y  :"@ + v_y + ", a  :"@ + v_a + ",\n b  :"@ + v_b;
    let q = Seq::<Seq<char>>::empty()
        .push(",\n down:  "@)
        .push(v_down)
        .push(",\n, left:"@)
        .push(v_left)
        .push(", right:"@)
        .push(v_right)
        .push(" \n l1:"@)
        .push(v_l1)
        .push(",l2:"@)
        .push(v_l2)
        .push(", r1:"@)
        .push(v_r1)
        .push(", r2:"@)
        .push(v_r2)
        .push("\n l3:"@)
        .push(v_l3)
        .push(", r3:"@)
        .push(v_r3)
        .push(", start:"@)
        .push(v_start)
        .push(", select:"@)
        .push(v_select)
        .push(", back:"@)
        .push(v_back)
        .push("\n lx :"@)
        .push(v_lx)
        .push(", ly :"@)
        .push(v_ly)
        .push("\n rx :"@)
        .push(v_rx)
        .push(", ry :"@)
        .push(v_ry)
        .push("  "@);
    assert(Seq::<char>::empty() + "x :"@ =~= "x :"@);
    assert(append_all(pre + " up:  "@ + v_up, Seq::empty()) == pre + " up:  "@ + v_up);
    assert(append_all(pre + " up:  "@ + w, Seq::empty()) == pre + " up:  "@ + w);
    assert(debug_layout(v_x, v_y, v_a, v_b, v_up, v_down, v_left, v_right, v_l1, v_l2, v_r1, v_r2, v_l3, v_r3, v_start, v_select, v_back, v_lx, v_ly, v_rx, v_ry) == append_all(pre + " up:  "@ + v_up, q));
    assert(debug_layout(v_x, v_y, v_a, v_b, w, v_down, v_left, v_right, v_l1, v_l2, v_r1, v_r2, v_l3, v_r3, v_start, v_select, v_back, v_lx, v_ly, v_rx, v_ry) == append_all(pre + " up:  "@ + w, q));
    lemma_append_all_regroup(pre + " up:  "@ + v_up, q);
    lemma_append_all_regroup(pre + " up:  "@ + w, q);
    let post = append_all(Seq::empty(), q);
    assert(slot_text(pre, " up:  "@, v_up, post) == debug_layout(v_x, v_y, v_a, v_b, v_up, v_down, v_left, v_right, v_l1, v_l2, v_r1, v_r2, v_l3, v_r3, v_start, v_select, v_back, v_lx, v_ly, v_rx, v_ry));
}

/// Replacing the value after ",\n down:  "@ changes the layout only there.
proof fn lemma_layout_slot_down(
    v_x: Seq<char>,
    v_y: Seq<char>,
    v_a: Seq<char>,
    v_b: Seq<char>,
    v_up: Seq<char>,
    v_down: Seq<char>,
    v_left: Seq<char>,
    v_right: Seq<char>,
    v_l1: Seq<char>,
    v_l2: Seq<char>,
    v_r1: Seq<char>,
    v_r2: Seq<char>,
    v_l3: Seq<char>,
    v_r3: Seq<char>,
    v_start: Seq<char>,
    v_select: Seq<char>,
    v_back: Seq<char>,
    v_lx: Seq<char>,
    v_ly: Seq<char>,
    v_rx: Seq<char>,
    v_ry: Seq<char>,
    w: Seq<char>,
)
    ensures
        differ_only_in_slot(
            debug_layout(v_x, v_y, v_a, v_b, v_up, v_down, v_left, v_right, v_l1, v_l2, v_r1, v_r2, v_l3, v_r3, v_start, v_select, v_back, v_lx, v_ly, v_rx, v_ry),
            debug_layout(v_x, v_y, v_a, v_b, v_up, w, v_left, v_right, v_l1, v_l2, v_r1, v_r2, v_l3, v_r3, v_start, v_select, v_back, v_lx, v_ly, v_rx, v_ry),
            ",\n down:  "@,
            v_down,
            w,
        ),
{
    broadcast use lemma_append_all_push;

    let pre = "x :"@ + v_x + ", y  :"@ + v_y + ", a  :"@ + v_a + ",\n b  :"@ + v_b + " up:  "@ + v_up;
    let q = Seq::<Seq<char>>::empty()
        .push(",\n, left:"@)
        .push(v_left)
        .push(", right:"@)
        .push(v_right)
        .push(" \n l1:"@)
        .push(v_l1)
        .push(",l2:"@)
        .push(v_l2)
        .push(", r1:"@)
        .push(v_r1)
        .push(", r2:"@)
        .push(v_r2)
        .push("\n l3:"@)
        .push(v_l3)
        .push(", r3:"@)
        .push(v_r3)
        .push(", start:"@)
        .push(v_start)
        .push(", select:"@)
        .push(v_select)
        .push(", back:"@)
        .push(v_back)
        .push("\n lx :"@)
        .push(v_lx)
        .push(", ly :"@)
        .push(v_ly)
        .push("\n rx :"@)
        .push(v_rx)
        .push(", ry :"@)
        .push(v_ry)
        .push("  "@);
    assert(Seq::<char>::empty() + "x :"@ =~= "x :"@);
    assert(append_all(pre + ",\n down:  "@ + v_down, Seq::empty()) == pre + ",\n down:  "@ + v_down);
    assert(append_all(pre + ",\n down:  "@ + w, Seq::empty()) == pre + ",\n down:  "@ + w);
    assert(debug_layout(v_x, v_y, v_a, v_b, v_up, v_down, v_left, v_right, v_l1, v_l2, v_r1, v_r2, v_l3, v_r3, v_start, v_select, v_back, v_lx, v_ly, v_rx, v_ry) == append_all(pre + ",\n down:  "@ + v_down, q));
    assert(debug_layout(v_x, v_y, v_a, v_b, v_up, w, v_left, v_right, v_l1, v_l2, v_r1, v_r2, v_l3, v_r3, v_start, v_select, v_back, v_lx, v_ly, v_rx, v_ry) == append_all(pre + ",\n down:  "@ + w, q));
    lemma_append_all_regroup(pre + ",\n down:  "@ + v_down, q);
    lemma_append_all_regroup(pre + ",\n down:  "@ + w, q);
    let post = append_all(Seq::empty(), q);
    assert(slot_text(pre, ",\n down:  "@, v_down, post) == debug_layout(v_x, v_y, v_a, v_b, v_up, v_down, v_left, v_right, v_l1, v_l2, v_r1, v_r2, v_l3, v_r3, v_start, v_select, v_back, v_lx, v_ly, v_rx, v_ry));
}

/// Replacing the value after ",\n, left:"@ changes the layout only there.
proof fn lemma_layout_slot_left(
    v_x: Seq<char>,
    v_y: Seq<char>,
    v_a: Seq<char>,
    v_b: Seq<char>,
    v_up: Seq<char>,
    v_down: Seq<char>,
    v_left: Seq<char>,
    v_right: Seq<char>,
    v_l1: Seq<char>,
    v_l2: Seq<char>,
    v_r1: Seq<char>,
    v_r2: Seq<char>,
    v_l3: Seq<char>,
    v_r3: Seq<char>,
    v_start: Seq<char>,
    v_select: Seq<char>,
    v_back: Seq<char>,
    v_lx: Seq<char>,
    v_ly: Seq<char>,
    v_rx: Seq<char>,
    v_ry: Seq<char>,
    w: Seq<char>,
)
    ensures
        differ_only_in_slot(
            debug_layout(v_x, v_y, v_a, v_b, v_up, v_down, v_left, v_right, v_l1, v_l2, v_r1, v_r2, v_l3, v_r3, v_start, v_select, v_back, v_lx, v_ly, v_rx, v_ry),
            debug_layout(v_x, v_y, v_a, v_b, v_up, v_down, w, v_right, v_l1, v_l2, v_r1, v_r2, v_l3, v_r3, v_start, v_select, v_back, v_lx, v_ly, v_rx, v_ry),
            ",\n, left:"@,
            v_left,
            w,
        ),
{
    broadcast use lemma_append_all_push;

    let pre = "x :"@ + v_x + ", y  :"@ + v_y + ", a  :"@ + v_a + ",\n b  :"@ + v_b + " up:  "@ + v_up + ",\n down:  "@ + v_down;
    let q = Seq::<Seq<char>>::empty()
        .push(", right:"@)
        .push(v_right)
        .push(" \n l1:"@)
        .push(v_l1)
        .push(",l2:"@)
        .push(v_l2)
        .push(", r1:"@)
        .push(v_r1)
        .push(", r2:"@)
        .push(v_r2)
        .push("\n l3:"@)
        .push(v_l3)
        .push(", r3:"@)
        .push(v_r3)
        .push(", start:"@)
        .push(v_start)
        .push(", select:"@)
        .push(v_select)
        .push(", back:"@)
        .push(v_back)
        .push("\n lx :"@)
        .push(v_lx)
        .push(", ly :"@)
        .push(v_ly)
        .push("\n rx :"@)
        .push(v_rx)
        .push(", ry :"@)
        .push(v_ry)
        .push("  "@);
    assert(Seq::<char>::empty() + "x :"@ =~= "x :"@);
    assert(append_all(pre + ",\n, left:"@ + v_left, Seq::empty()) == pre + ",\n, left:"@ + v_left);
    assert(append_all(pre + ",\n, left:"@ + w, Seq::empty()) == pre + ",\n, left:"@ + w);
    assert(debug_layout(v_x, v_y, v_a, v_b, v_up, v_down, v_left, v_right, v_l1, v_l2, v_r1, v_r2, v_l3, v_r3, v_start, v_select, v_back, v_lx, v_ly, v_rx, v_ry) == append_all(pre + ",\n, left:"@ + v_left, q));
    assert(debug_layout(v_x, v_y, v_a, v_b, v_up, v_down, w, v_right, v_l1, v_l2, v_r1, v_r2, v_l3, v_r3, v_start, v_select, v_back, v_lx, v_ly, v_rx, v_ry) == append_all(pre + ",\n, left:"@ + w, q));
    lemma_append_all_regroup(pre + ",\n, left:"@ + v_left, q);
    lemma_append_all_regroup(pre + ",\n, left:"@ + w, q);
    let post = append_all(Seq::empty(), q);
    assert(slot_text(pre, ",\n, left:"@, v_left, post) == debug_layout(v_x, v_y, v_a, v_b, v_up, v_down, v_left, v_right, v_l1, v_l2, v_r1, v_r2, v_l3, v_r3, v_start, v_select, v_back, v_lx, v_ly, v_rx, v_ry));
}

/// Replacing the value after ", right:"@ changes the layout only there.
proof fn lemma_layout_slot_right(
    v_x: Seq<char>,
    v_y: Seq<char>,
    v_a: Seq<char>,
    v_b: Seq<char>,
    v_up: Seq<char>,
    v_down: Seq<char>,
    v_left: Seq<char>,
    v_right: Seq<char>,
    v_l1: Seq<char>,
    v_l2: Seq<char>,
    v_r1: Seq<char>,
    v_r2: Seq<char>,
    v_l3: Seq<char>,
    v_r3: Seq<char>,
    v_start: Seq<char>,
    v_select: Seq<char>,
    v_back: Seq<char>,
    v_lx: Seq<char>,
    v_ly: Seq<char>,
    v_rx: Seq<char>,
    v_ry: Seq<char>,
    w: Seq<char>,
)
    ensures
        differ_only_in_slot(
            debug_layout(v_x, v_y, v_a, v_b, v_up, v_down, v_left, v_right, v_l1, v_l2, v_r1, v_r2, v_l3, v_r3, v_start, v_select, v_back, v_lx, v_ly, v_rx, v_ry),
            debug_layout(v_x, v_y, v_a, v_b, v_up, v_down, v_left, w, v_l1, v_l2, v_r1, v_r2, v_l3, v_r3, v_start, v_select, v_back, v_lx, v_ly, v_rx, v_ry),
            ", right:"@,
            v_right,
            w,
        ),
{
    broadcast use lemma_append_all_push;

    let pre = "x :"@ + v_x + ", y  :"@ + v_y + ", a  :"@ + v_a + ",\n b  :"@ + v_b + " up:  "@ + v_up + ",\n down:  "@ + v_down + ",\n, left:"@ + v_left;
    let q = Seq::<Seq<char>>::empty()
        .push(" \n l1:"@)
        .push(v_l1)
        .push(",l2:"@)
        .push(v_l2)
        .push(", r1:"@)
        .push(v_r1)
        .push(", r2:"@)
        .push(v_r2)
        .push("\n l3:"@)
        .push(v_l3)
        .push(", r3:"@)
        .push(v_r3)
        .push(", start:"@)
        .push(v_start)
        .push(", select:"@)
        .push(v_select)
        .push(", back:"@)
        .push(v_back)
        .push("\n lx :"@)
        .push(v_lx)
        .push(", ly :"@)
        .push(v_ly)
        .push("\n rx :"@)
        .push(v_rx)
        .push(", ry :"@)
        .push(v_ry)
        .push("  "@);
    assert(Seq::<char>::empty() + "x :"@ =~= "x :"@);
    assert(append_all(pre + ", right:"@ + v_right, Seq::empty()) == pre + ", right:"@ + v_right);
    assert(append_all(pre + ", right:"@ + w, Seq::empty()) == pre + ", right:"@ + w);
    assert(debug_layout(v_x, v_y, v_a, v_b, v_up, v_down, v_left, v_right, v_l1, v_l2, v_r1, v_r2, v_l3, v_r3, v_start, v_select, v_back, v_lx, v_ly, v_rx, v_ry) == append_all(pre + ", right:"@ + v_right, q));
    assert(debug_layout(v_x, v_y, v_a, v_b, v_up, v_down, v_left, w, v_l1, v_l2, v_r1, v_r2, v_l3, v_r3, v_start, v_select, v_back, v_lx, v_ly, v_rx, v_ry) == append_all(pre + ", right:"@ + w, q));
    lemma_append_all_regroup(pre + ", right:"@ + v_right, q);
    lemma_append_all_regroup(pre + ", right:"@ + w, q);
    let post = append_all(Seq::empty(), q);
    assert(slot_text(pre, ", right:"@, v_right, post) == debug_layout(v_x, v_y, v_a, v_b, v_up, v_down, v_left, v_right, v_l1, v_l2, v_r1, v_r2, v_l3, v_r3, v_start, v_select, v_back, v_lx, v_ly, v_rx, v_ry));
}

/// Replacing the value after " \n l1:"@ changes the layout only there.
proof fn lemma_layout_slot_l1(
    v_x: Seq<char>,
    v_y: Seq<char>,
    v_a: Seq<char>,
    v_b: Seq<char>,
    v_up: Seq<char>,
    v_down: Seq<char>,
    v_left: Seq<char>,
    v_right: Seq<char>,
    v_l1: Seq<char>,
    v_l2: Seq<char>,
    v_r1: Seq<char>,
    v_r2: Seq<char>,
    v_l3: Seq<char>,
    v_r3: Seq<char>,
    v_start: Seq<char>,
    v_select: Seq<char>,
    v_back: Seq<char>,
    v_lx: Seq<char>,
    v_ly: Seq<char>,
    v_rx: Seq<char>,
    v_ry: Seq<char>,
    w: Seq<char>,
)
    ensures
        differ_only_in_slot(
            debug_layout(v_x, v_y, v_a, v_b, v_up, v_down, v_left, v_right, v_l1, v_l2, v_r1, v_r2, v_l3, v_r3, v_start, v_select, v_back, v_lx, v_ly, v_rx, v_ry),
            debug_layout(v_x, v_y, v_a, v_b, v_up, v_down, v_left, v_right, w, v_l2, v_r1, v_r2, v_l3, v_r3, v_start, v_select, v_back, v_lx, v_ly, v_rx, v_ry),
            " \n l1:"@,
            v_l1,
            w,
        ),
{
    broadcast use lemma_append_all_push;

    let pre = "x :"@ + v_x + ", y  :"@ + v_y + ", a  :"@ + v_a + ",\n b  :"@ + v_b + " up:  "@ + v_up + ",\n down:  "@ + v_down + ",\n, left:"@ + v_left + ", right:"@ + v_right;
    let q = Seq::<Seq<char>>::empty()
        .push(",l2:"@)
        .push(v_l2)
        .push(", r1:"@)
        .push(v_r1)
        .push(", r2:"@)
        .push(v_r2)
        .push("\n l3:"@)
        .push(v_l3)
        .push(", r3:"@)
        .push(v_r3)
        .push(", start:"@)
        .push(v_start)
        .push(", select:"@)
        .push(v_select)
        .push(", back:"@)
        .push(v_back)
        .push("\n lx :"@)
        .push(v_lx)
        .push(", ly :"@)
        .push(v_ly)
        .push("\n rx :"@)
        .push(v_rx)
        .push(", ry :"@)
        .push(v_ry)
        .push("  "@);
    assert(Seq::<char>::empty() + "x :"@ =~= "x :"@);
    assert(append_all(pre + " \n l1:"@ + v_l1, Seq::empty()) == pre + " \n l1:"@ + v_l1);
    assert(append_all(pre + " \n l1:"@ + w, Seq::empty()) == pre + " \n l1:"@ + w);
    assert(debug_layout(v_x, v_y, v_a, v_b, v_up, v_down, v_left, v_right, v_l1, v_l2, v_r1, v_r2, v_l3, v_r3, v_start, v_select, v_back, v_lx, v_ly, v_rx, v_ry) == append_all(pre + " \n l1:"@ + v_l1, q));
    assert(debug_layout(v_x, v_y, v_a, v_b, v_up, v_down, v_left, v_right, w, v_l2, v_r1, v_r2, v_l3, v_r3, v_start, v_select, v_back, v_lx, v_ly, v_rx, v_ry) == append_all(pre + " \n l1:"@ + w, q));
    lemma_append_all_regroup(pre + " \n l1:"@ + v_l1, q);
    lemma_append_all_regroup(pre + " \n l1:"@ + w, q);
    let post = append_all(Seq::empty(), q);
    assert(slot_text(pre, " \n l1:"@, v_l1, post) == debug_layout(v_x, v_y, v_a, v_b, v_up, v_down, v_left, v_right, v_l1, v_l2, v_r1, v_r2, v_l3, v_r3, v_start, v_select, v_back, v_lx, v_ly, v_rx, v_ry));
}

/// Replacing the value after ",l2:"@ changes the layout only there.
proof fn lemma_layout_slot_l2(
    v_x: Seq<char>,
    v_y: Seq<char>,
    v_a: Seq<char>,
    v_b: Seq<char>,
    v_up: Seq<char>,
    v_down: Seq<char>,
    v_left: Seq<char>,
    v_right: Seq<char>,
    v_l1: Seq<char>,
    v_l2: Seq<char>,
    v_r1: Seq<char>,
    v_r2: Seq<char>,
    v_l3: Seq<char>,
    v_r3: Seq<char>,
    v_start: Seq<char>,
    v_select: Seq<char>,
    v_back: Seq<char>,
    v_lx: Seq<char>,
    v_ly: Seq<char>,
    v_rx: Seq<char>,
    v_ry: Seq<char>,
    w: Seq<char>,
)
    ensures
        differ_only_in_slot(
            debug_layout(v_x, v_y, v_a, v_b, v_up, v_down, v_left, v_right, v_l1, v_l2, v_r1, v_r2, v_l3, v_r3, v_start, v_select, v_back, v_lx, v_ly, v_rx, v_ry),
            debug_layout(v_x, v_y, v_a, v_b, v_up, v_down, v_left, v_right, v_l1, w, v_r1, v_r2, v_l3, v_r3, v_start, v_select, v_back, v_lx, v_ly, v_rx, v_ry),
            ",l2:"@,
            v_l2,
            w,
        ),
{
    broadcast use lemma_append_all_push;

    let pre = "x :"@ + v_x + ", y  :"@ + v_y + ", a  :"@ + v_a + ",\n b  :"@ + v_b + " up:  "@ + v_up + ",\n down:  "@ + v_down + ",\n, left:"@ + v_left + ", right:"@ + v_right + " \n l1:"@ + v_l1;
    let q = Seq::<Seq<char>>::empty()
        .push(", r1:"@)
        .push(v_r1)
        .push(", r2:"@)
        .push(v_r2)
        .push("\n l3:"@)
        .push(v_l3)
        .push(", r3:"@)
        .push(v_r3)
        .push(", start:"@)
        .push(v_start)
        .push(", select:"@)
        .push(v_select)
        .push(", back:"@)
        .push(v_back)
        .push("\n lx :"@)
        .push(v_lx)
        .push(", ly :"@)
        .push(v_ly)
        .push("\n rx :"@)
        .push(v_rx)
        .push(", ry :"@)
        .push(v_ry)
        .push("  "@);
    assert(Seq::<char>::empty() + "x :"@ =~= "x :"@);
    assert(append_all(pre + ",l2:"@ + v_l2, Seq::empty()) == pre + ",l2:"@ + v_l2);
    assert(append_all(pre + ",l2:"@ + w, Seq::empty()) == pre + ",l2:"@ + w);
    assert(debug_layout(v_x, v_y, v_a, v_b, v_up, v_down, v_left, v_right, v_l1, v_l2, v_r1, v_r2, v_l3, v_r3, v_start, v_select, v_back, v_lx, v_ly, v_rx, v_ry) == append_all(pre + ",l2:"@ + v_l2, q));
    assert(debug_layout(v_x, v_y, v_a, v_b, v_up, v_down, v_left, v_right, v_l1, w, v_r1, v_r2, v_l3, v_r3, v_start, v_select, v_back, v_lx, v_ly, v_rx, v_ry) == append_all(pre + ",l2:"@ + w, q));
    lemma_append_all_regroup(pre + ",l2:"@ + v_l2, q);
    lemma_append_all_regroup(pre + ",l2:"@ + w, q);
    let post = append_all(Seq::empty(), q);
    assert(slot_text(pre, ",l2:"@, v_l2, post) == debug_layout(v_x, v_y, v_a, v_b, v_up, v_down, v_left, v_right, v_l1, v_l2, v_r1, v_r2, v_l3, v_r3, v_start, v_select, v_back, v_lx, v_ly, v_rx, v_ry));
}

/// Replacing the value after ", r1:"@ changes the layout only there.
proof fn lemma_layout_slot_r1(
    v_x: Seq<char>,
    v_y: Seq<char>,
    v_a: Seq<char>,
    v_b: Seq<char>,
    v_up: Seq<char>,
    v_down: Seq<char>,
    v_left: Seq<char>,
    v_right: Seq<char>,
    v_l1: Seq<char>,
    v_l2: Seq<char>,
    v_r1: Seq<char>,
    v_r2: Seq<char>,
    v_l3: Seq<char>,
    v_r3: Seq<char>,
    v_start: Seq<char>,
    v_select: Seq<char>,
    v_back: Seq<char>,
    v_lx: Seq<char>,
    v_ly: Seq<char>,
    v_rx: Seq<char>,
    v_ry: Seq<char>,
    w: Seq<char>,
)
    ensures
        differ_only_in_slot(
            debug_layout(v_x, v_y, v_a, v_b, v_up, v_down, v_left, v_right, v_l1, v_l2, v_r1, v_r2, v_l3, v_r3, v_start, v_select, v_back, v_lx, v_ly, v_rx, v_ry),
            debug_layout(v_x, v_y, v_a, v_b, v_up, v_down, v_left, v_right, v_l1, v_l2, w, v_r2, v_l3, v_r3, v_start, v_select, v_back, v_lx, v_ly, v_rx, v_ry),
            ", r1:"@,
            v_r1,
            w,
        ),
{
    broadcast use lemma_append_all_push;

    let pre = "x :"@ + v_x + ", y  :"@ + v_y + ", a  :"@ + v_a + ",\n b  :"@ + v_b + " up:  "@ + v_up + ",\n down:  "@ + v_down + ",\n, left:"@ + v_left + ", right:"@ + v_right + " \n l1:"@ + v_l1 + ",l2:"@ + v_l2;
    let q = Seq::<Seq<char>>::empty()
        .push(", r2:"@)
        .push(v_r2)
        .push("\n l3:"@)
        .push(v_l3)
        .push(", r3:"@)
        .push(v_r3)
        .push(", start:"@)
        .push(v_start)
        .push(", select:"@)
        .push(v_select)
        .push(", back:"@)
        .push(v_back)
        .push("\n lx :"@)
        .push(v_lx)
        .push(", ly :"@)
        .push(v_ly)
        .push("\n rx :"@)
        .push(v_rx)
        .push(", ry :"@)
        .push(v_ry)
        .push("  "@);
    assert(Seq::<char>::empty() + "x :"@ =~= "x :"@);
    assert(append_all(pre + ", r1:"@ + v_r1, Seq::empty()) == pre + ", r1:"@ + v_r1);
    assert(append_all(pre + ", r1:"@ + w, Seq::empty()) == pre + ", r1:"@ + w);
    assert(debug_layout(v_x, v_y, v_a, v_b, v_up, v_down, v_left, v_right, v_l1, v_l2, v_r1, v_r2, v_l3, v_r3, v_start, v_select, v_back, v_lx, v_ly, v_rx, v_ry) == append_all(pre + ", r1:"@ + v_r1, q));
    assert(debug_layout(v_x, v_y, v_a, v_b, v_up, v_down, v_left, v_right, v_l1, v_l2, w, v_r2, v_l3, v_r3, v_start, v_select, v_back, v_lx, v_ly, v_rx, v_ry) == append_all(pre + ", r1:"@ + w, q));
    lemma_append_all_regroup(pre + ", r1:"@ + v_r1, q);
    lemma_append_all_regroup(pre + ", r1:"@ + w, q);
    let post = append_all(Seq::empty(), q);
    assert(slot_text(pre, ", r1:"@, v_r1, post) == debug_layout(v_x, v_y, v_a, v_b, v_up, v_down, v_left, v_right, v_l1, v_l2, v_r1, v_r2, v_l3, v_r3, v_start, v_select, v_back, v_lx, v_ly, v_rx, v_ry));
}

/// Replacing the value after ", r2:"@ changes the layout only there.
proof fn lemma_layout_slot_r2(
    v_x: Seq<char>,
    v_y: Seq<char>,
    v_a: Seq<char>,
    v_b: Seq<char>,
    v_up: Seq<char>,
    v_down: Seq<char>,
    v_left: Seq<char>,
    v_right: Seq<char>,
    v_l1: Seq<char>,
    v_l2: Seq<char>,
    v_r1: Seq<char>,
    v_r2: Seq<char>,
    v_l3: Seq<char>,
    v_r3: Seq<char>,
    v_start: Seq<char>,
    v_select: Seq<char>,
    v_back: Seq<char>,
    v_lx: Seq<char>,
    v_ly: Seq<char>,
    v_rx: Seq<char>,
    v_ry: Seq<char>,
    w: Seq<char>,
)
    ensures
        differ_only_in_slot(
            debug_layout(v_x, v_y, v_a, v_b, v_up, v_down, v_left, v_right, v_l1, v_l2, v_r1, v_r2, v_l3, v_r3, v_start, v_select, v_back, v_lx, v_ly, v_rx, v_ry),
            debug_layout(v_x, v_y, v_a, v_b, v_up, v_down, v_left, v_right, v_l1, v_l2, v_r1, w, v_l3, v_r3, v_start, v_select, v_back, v_lx, v_ly, v_rx, v_ry),
            ", r2:"@,
            v_r2,
            w,
        ),
{
    broadcast use lemma_append_all_push;

    let pre = "x :"@ + v_x + ", y  :"@ + v_y + ", a  :"@ + v_a + ",\n b  :"@ + v_b + " up:  "@ + v_up + ",\n down:  "@ + v_down + ",\n, left:"@ + v_left + ", right:"@ + v_right + " \n l1:"@ + v_l1 + ",l2:"@ + v_l2 + ", r1:"@ + v_r1;
    let q = Seq::<Seq<char>>::empty()
        .push("\n l3:"@)
        .push(v_l3)
        .push(", r3:"@)
        .push(v_r3)
        .push(", start:"@)
        .push(v_start)
        .push(", select:"@)
        .push(v_select)
        .push(", back:"@)
        .push(v_back)
        .push("\n lx :"@)
        .push(v_lx)
        .push(", ly :"@)
        .push(v_ly)
        .push("\n rx :"@)
        .push(v_rx)
        .push(", ry :"@)
        .push(v_ry)
        .push("  "@);
    assert(Seq::<char>::empty() + "x :"@ =~= "x :"@);
    assert(append_all(pre + ", r2:"@ + v_r2, Seq::empty()) == pre + ", r2:"@ + v_r2);
    assert(append_all(pre + ", r2:"@ + w, Seq::empty()) == pre + ", r2:"@ + w);
    assert(debug_layout(v_x, v_y, v_a, v_b, v_up, v_down, v_left, v_right, v_l1, v_l2, v_r1, v_r2, v_l3, v_r3, v_start, v_select, v_back, v_lx, v_ly, v_rx, v_ry) == append_all(pre + ", r2:"@ + v_r2, q));
    assert(debug_layout(v_x, v_y, v_a, v_b, v_up, v_down, v_left, v_right, v_l1, v_l2, v_r1, w, v_l3, v_r3, v_start, v_select, v_back, v_lx, v_ly, v_rx, v_ry) == append_all(pre + ", r2:"@ + w, q));
    lemma_append_all_regroup(pre + ", r2:"@ + v_r2, q);
    lemma_append_all_regroup(pre + ", r2:"@ + w, q);
    let post = append_all(Seq::empty(), q);
    assert(slot_text(pre, ", r2:"@, v_r2, post) == debug_layout(v_x, v_y, v_a, v_b, v_up, v_down, v_left, v_right, v_l1, v_l2, v_r1, v_r2, v_l3, v_r3, v_start, v_select, v_back, v_lx, v_ly, v_rx, v_ry));
}

/// Replacing the value after "\n l3:"@ changes the layout only there.
proof fn lemma_layout_slot_l3(
    v_x: Seq<char>,
    v_y: Seq<char>,
    v_a: Seq<char>,
    v_b: Seq<char>,
    v_up: Seq<char>,
    v_down: Seq<char>,
    v_left: Seq<char>,
    v_right: Seq<char>,
    v_l1: Seq<char>,
    v_l2: Seq<char>,
    v_r1: Seq<char>,
    v_r2: Seq<char>,
    v_l3: Seq<char>,
    v_r3: Seq<char>,
    v_start: Seq<char>,
    v_select: Seq<char>,
    v_back: Seq<char>,
    v_lx: Seq<char>,
    v_ly: Seq<char>,
    v_rx: Seq<char>,
    v_ry: Seq<char>,
    w: Seq<char>,
)
    ensures
        differ_only_in_slot(
            debug_layout(v_x, v_y, v_a, v_b, v_up, v_down, v_left, v_right, v_l1, v_l2, v_r1, v_r2, v_l3, v_r3, v_start, v_select, v_back, v_lx, v_ly, v_rx, v_ry),
            debug_layout(v_x, v_y, v_a, v_b, v_up, v_down, v_left, v_right, v_l1, v_l2, v_r1, v_r2, w, v_r3, v_start, v_select, v_back, v_lx, v_ly, v_rx, v_ry),
            "\n l3:"@,
            v_l3,
            w,
        ),
{
    broadcast use lemma_append_all_push;

    let pre = "x :"@ + v_x + ", y  :"@ + v_y + ", a  :"@ + v_a + ",\n b  :"@ + v_b + " up:  "@ + v_up + ",\n down:  "@ + v_down + ",\n, left:"@ + v_left + ", right:"@ + v_right + " \n l1:"@ + v_l1 + ",l2:"@ + v_l2 + ", r1:"@ + v_r1 + ", r2:"@ + v_r2;
    let q = Seq::<Seq<char>>::empty()
        .push(", r3:"@)
        .push(v_r3)
        .push(", start:"@)
        .push(v_start)
        .push(", select:"@)
        .push(v_select)
        .push(", back:"@)
        .push(v_back)
        .push("\n lx :"@)
        .push(v_lx)
        .push(", ly :"@)
        .push(v_ly)
        .push("\n rx :"@)
        .push(v_rx)
        .push(", ry :"@)
        .push(v_ry)
        .push("  "@);
    assert(Seq::<char>::empty() + "x :"@ =~= "x :"@);
    assert(append_all(pre + "\n l3:"@ + v_l3, Seq::empty()) == pre + "\n l3:"@ + v_l3);
    assert(append_all(pre + "\n l3:"@ + w, Seq::empty()) == pre + "\n l3:"@ + w);
    assert(debug_layout(v_x, v_y, v_a, v_b, v_up, v_down, v_left, v_right, v_l1, v_l2, v_r1, v_r2, v_l3, v_r3, v_start, v_select, v_back, v_lx, v_ly, v_rx, v_ry) == append_all(pre + "\n l3:"@ + v_l3, q));
    assert(debug_layout(v_x, v_y, v_a, v_b, v_up, v_down, v_left, v_right, v_l1, v_l2, v_r1, v_r2, w, v_r3, v_start, v_select, v_back, v_lx, v_ly, v_rx, v_ry) == append_all(pre + "\n l3:"@ + w, q));
    lemma_append_all_regroup(pre + "\n l3:"@ + v_l3, q);
    lemma_append_all_regroup(pre + "\n l3:"@ + w, q);
    let post = append_all(Seq::empty(), q);
    assert(slot_text(pre, "\n l3:"@, v_l3, post) == debug_layout(v_x, v_y, v_a, v_b, v_up, v_down, v_left, v_right, v_l1, v_l2, v_r1, v_r2, v_l3, v_r3, v_start, v_select, v_back, v_lx, v_ly, v_rx, v_ry));
}

/// Replacing the value after ", r3:"@ changes the layout only there.
proof fn lemma_layout_slot_r3(
    v_x: Seq<char>,
    v_y: Seq<char>,
    v_a: Seq<char>,
    v_b: Seq<char>,
    v_up: Seq<char>,
    v_down: Seq<char>,
    v_left: Seq<char>,
    v_right: Seq<char>,
    v_l1: Seq<char>,
    v_l2: Seq<char>,
    v_r1: Seq<char>,
    v_r2: Seq<char>,
    v_l3: Seq<char>,
    v_r3: Seq<char>,
    v_start: Seq<char>,
    v_select: Seq<char>,
    v_back: Seq<char>,
    v_lx: Seq<char>,
    v_ly: Seq<char>,
    v_rx: Seq<char>,
    v_ry: Seq<char>,
    w: Seq<char>,
)
    ensures
        differ_only_in_slot(
            debug_layout(v_x, v_y, v_a, v_b, v_up, v_down, v_left, v_right, v_l1, v_l2, v_r1, v_r2, v_l3, v_r3, v_start, v_select, v_back, v_lx, v_ly, v_rx, v_ry),
            debug_layout(v_x, v_y, v_a, v_b, v_up, v_down, v_left, v_right, v_l1, v_l2, v_r1, v_r2, v_l3, w, v_start, v_select, v_back, v_lx, v_ly, v_rx, v_ry),
            ", r3:"@,
            v_r3,
            w,
        ),
{
    broadcast use lemma_append_all_push;

    let pre = "x :"@ + v_x + ", y  :"@ + v_y + ", a  :"@ + v_a + ",\n b  :"@ + v_b + " up:  "@ + v_up + ",\n down:  "@ + v_down + ",\n, left:"@ + v_left + ", right:"@ + v_right + " \n l1:"@ + v_l1 + ",l2:"@ + v_l2 + ", r1:"@ + v_r1 + ", r2:"@ + v_r2 + "\n l3:"@ + v_l3;
    let q = Seq::<Seq<char>>::empty()
        .push(", start:"@)
        .push(v_start)
        .push(", select:"@)
        .push(v_select)
        .push(", back:"@)
        .push(v_back)
        .push("\n lx :"@)
        .push(v_lx)
        .push(", ly :"@)
        .push(v_ly)
        .push("\n rx :"@)
        .push(v_rx)
        .push(", ry :"@)
        .push(v_ry)
        .push("  "@);
    assert(Seq::<char>::empty() + "x :"@ =~= "x :"@);
    assert(append_all(pre + ", r3:"@ + v_r3, Seq::empty()) == pre + ", r3:"@ + v_r3);
    assert(append_all(pre + ", r3:"@ + w, Seq::empty()) == pre + ", r3:"@ + w);
    assert(debug_layout(v_x, v_y, v_a, v_b, v_up, v_down, v_left, v_right, v_l1, v_l2, v_r1, v_r2, v_l3, v_r3, v_start, v_select, v_back, v_lx, v_ly, v_rx, v_ry) == append_all(pre + ", r3:"@ + v_r3, q));
    assert(debug_layout(v_x, v_y, v_a, v_b, v_up, v_down, v_left, v_right, v_l1, v_l2, v_r1, v_r2, v_l3, w, v_start, v_select, v_back, v_lx, v_ly, v_rx, v_ry) == append_all(pre + ", r3:"@ + w, q));
    lemma_append_all_regroup(pre + ", r3:"@ + v_r3, q);
    lemma_append_all_regroup(pre + ", r3:"@ + w, q);
    let post = append_all(Seq::empty(), q);
    assert(slot_text(pre, ", r3:"@, v_r3, post) == debug_layout(v_x, v_y, v_a, v_b, v_up, v_down, v_left, v_right, v_l1, v_l2, v_r1, v_r2, v_l3, v_r3, v_start, v_select, v_back, v_lx, v_ly, v_rx, v_ry));
}

/// Replacing the value after ", start:"@ changes the layout only there.
proof fn lemma_layout_slot_start(
    v_x: Seq<char>,
    v_y: Seq<char>,
    v_a: Seq<char>,
    v_b: Seq<char>,
    v_up: Seq<char>,
    v_down: Seq<char>,
    v_left: Seq<char>,
    v_right: Seq<char>,
    v_l1: Seq<char>,
    v_l2: Seq<char>,
    v_r1: Seq<char>,
    v_r2: Seq<char>,
    v_l3: Seq<char>,
    v_r3: Seq<char>,
    v_start: Seq<char>,
    v_select: Seq<char>,
    v_back: Seq<char>,
    v_lx: Seq<char>,
    v_ly: Seq<char>,
    v_rx: Seq<char>,
    v_ry: Seq<char>,
    w: Seq<char>,
)
    ensures
        differ_only_in_slot(
            debug_layout(v_x, v_y, v_a, v_b, v_up, v_down, v_left, v_right, v_l1, v_l2, v_r1, v_r2, v_l3, v_r3, v_start, v_select, v_back, v_lx, v_ly, v_rx, v_ry),
            debug_layout(v_x, v_y, v_a, v_b, v_up, v_down, v_left, v_right, v_l1, v_l2, v_r1, v_r2, v_l3, v_r3, w, v_select, v_back, v_lx, v_ly, v_rx, v_ry),
            ", start:"@,
            v_start,
            w,
        ),
{
    broadcast use lemma_append_all_push;

    let pre = "x :"@ + v_x + ", y  :"@ + v_y + ", a  :"@ + v_a + ",\n b  :"@ + v_b + " up:  "@ + v_up + ",\n down:  "@ + v_down + ",\n, left:"@ + v_left + ", right:"@ + v_right + " \n l1:"@ + v_l1 + ",l2:"@ + v_l2 + ", r1:"@ + v_r1 + ", r2:"@ + v_r2 + "\n l3:"@ + v_l3 + ", r3:"@ + v_r3;
    let q = Seq::<Seq<char>>::empty()
        .push(", select:"@)
        .push(v_select)
        .push(", back:"@)
        .push(v_back)
        .push("\n lx :"@)
        .push(v_lx)
        .push(", ly :"@)
        .push(v_ly)
        .push("\n rx :"@)
        .push(v_rx)
        .push(", ry :"@)
        .push(v_ry)
        .push("  "@);
    assert(Seq::<char>::empty() + "x :"@ =~= "x :"@);
    assert(append_all(pre + ", start:"@ + v_start, Seq::empty()) == pre + ", start:"@ + v_start);
    assert(append_all(pre + ", start:"@ + w, Seq::empty()) == pre + ", start:"@ + w);
    assert(debug_layout(v_x, v_y, v_a, v_b, v_up, v_down, v_left, v_right, v_l1, v_l2, v_r1, v_r2, v_l3, v_r3, v_start, v_select, v_back, v_lx, v_ly, v_rx, v_ry) == append_all(pre + ", start:"@ + v_start, q));
    assert(debug_layout(v_x, v_y, v_a, v_b, v_up, v_down, v_left, v_right, v_l1, v_l2, v_r1, v_r2, v_l3, v_r3, w, v_select, v_back, v_lx, v_ly, v_rx, v_ry) == append_all(pre + ", start:"@ + w, q));
    lemma_append_all_regroup(pre + ", start:"@ + v_start, q);
    lemma_append_all_regroup(pre + ", start:"@ + w, q);
    let post = append_all(Seq::empty(), q);
    assert(slot_text(pre, ", start:"@, v_start, post) == debug_layout(v_x, v_y, v_a, v_b, v_up, v_down, v_left, v_right, v_l1, v_l2, v_r1, v_r2, v_l3, v_r3, v_start, v_select, v_back, v_lx, v_ly, v_rx, v_ry));
}

/// Replacing the value after ", select:"@ changes the layout only there.
proof fn lemma_layout_slot_select(
    v_x: Seq<char>,
    v_y: Seq<char>,
    v_a: Seq<char>,
    v_b: Seq<char>,
    v_up: Seq<char>,
    v_down: Seq<char>,
    v_left: Seq<char>,
    v_right: Seq<char>,
    v_l1: Seq<char>,
    v_l2: Seq<char>,
    v_r1: Seq<char>,
    v_r2: Seq<char>,
    v_l3: Seq<char>,
    v_r3: Seq<char>,
    v_start: Seq<char>,
    v_select: Seq<char>,
    v_back: Seq<char>,
    v_lx: Seq<char>,
    v_ly: Seq<char>,
    v_rx: Seq<char>,
    v_ry: Seq<char>,
    w: Seq<char>,
)
    ensures
        differ_only_in_slot(
            debug_layout(v_x, v_y, v_a, v_b, v_up, v_down, v_left, v_right, v_l1, v_l2, v_r1, v_r2, v_l3, v_r3, v_start, v_select, v_back, v_lx, v_ly, v_rx, v_ry),
            debug_layout(v_x, v_y, v_a, v_b, v_up, v_down, v_left, v_right, v_l1, v_l2, v_r1, v_r2, v_l3, v_r3, v_start, w, v_back, v_lx, v_ly, v_rx, v_ry),
            ", select:"@,
            v_select,
            w,
        ),
{
    broadcast use lemma_append_all_push;

    let pre = "x :"@ + v_x + ", y  :"@ + v_y + ", a  :"@ + v_a + ",\n b  :"@ + v_b + " up:  "@ + v_up + ",\n down:  "@ + v_down + ",\n, left:"@ + v_left + ", right:"@ + v_right + " \n l1:"@ + v_l1 + ",l2:"@ + v_l2 + ", r1:"@ + v_r1 + ", r2:"@ + v_r2 + "\n l3:"@ + v_l3 + ", r3:"@ + v_r3 + ", start:"@ + v_start;
    let q = Seq::<Seq<char>>::empty()
        .push(", back:"@)
        .push(v_back)
        .push("\n lx :"@)
        .push(v_lx)
        .push(", ly :"@)
        .push(v_ly)
        .push("\n rx :"@)
        .push(v_rx)
        .push(", ry :"@)
        .push(v_ry)
        .push("  "@);
    assert(Seq::<char>::empty() + "x :"@ =~= "x :"@);
    assert(append_all(pre + ", select:"@ + v_select, Seq::empty()) == pre + ", select:"@ + v_select);
    assert(append_all(pre + ", select:"@ + w, Seq::empty()) == pre + ", select:"@ + w);
    assert(debug_layout(v_x, v_y, v_a, v_b, v_up, v_down, v_left, v_right, v_l1, v_l2, v_r1, v_r2, v_l3, v_r3, v_start, v_select, v_back, v_lx, v_ly, v_rx, v_ry) == append_all(pre + ", select:"@ + v_select, q));
    assert(debug_layout(v_x, v_y, v_a, v_b, v_up, v_down, v_left, v_right, v_l1, v_l2, v_r1, v_r2, v_l3, v_r3, v_start, w, v_back, v_lx, v_ly, v_rx, v_ry) == append_all(pre + ", select:"@ + w, q));
    lemma_append_all_regroup(pre + ", select:"@ + v_select, q);
    lemma_append_all_regroup(pre + ", select:"@ + w, q);
    let post = append_all(Seq::empty(), q);
    assert(slot_text(pre, ", select:"@, v_select, post) == debug_layout(v_x, v_y, v_a, v_b, v_up, v_down, v_left, v_right, v_l1, v_l2, v_r1, v_r2, v_l3, v_r3, v_start, v_select, v_back, v_lx, v_ly, v_rx, v_ry));
}

/// Replacing the value after ", back:"@ changes the layout only there.
proof fn lemma_layout_slot_back(
    v_x: Seq<char>,
    v_y: Seq<char>,
    v_a: Seq<char>,
    v_b: Seq<char>,
    v_up: Seq<char>,
    v_down: Seq<char>,
    v_left: Seq<char>,
    v_right: Seq<char>,
    v_l1: Seq<char>,
    v_l2: Seq<char>,
    v_r1: Seq<char>,
    v_r2: Seq<char>,
    v_l3: Seq<char>,
    v_r3: Seq<char>,
    v_start: Seq<char>,
    v_select: Seq<char>,
    v_back: Seq<char>,
    v_lx: Seq<char>,
    v_ly: Seq<char>,
    v_rx: Seq<char>,
    v_ry: Seq<char>,
    w: Seq<char>,
)
    ensures
        differ_only_in_slot(
            debug_layout(v_x, v_y, v_a, v_b, v_up, v_down, v_left, v_right, v_l1, v_l2, v_r1, v_r2, v_l3, v_r3, v_start, v_select, v_back, v_lx, v_ly, v_rx, v_ry),
            debug_layout(v_x, v_y, v_a, v_b, v_up, v_down, v_left, v_right, v_l1, v_l2, v_r1, v_r2, v_l3, v_r3, v_start, v_select, w, v_lx, v_ly, v_rx, v_ry),
            ", back:"@,
            v_back,
            w,
        ),
{
    broadcast use lemma_append_all_push;

    let pre = "x :"@ + v_x + ", y  :"@ + v_y + ", a  :"@ + v_a + ",\n b  :"@ + v_b + " up:  "@ + v_up + ",\n down:  "@ + v_down + ",\n, left:"@ + v_left + ", right:"@ + v_right + " \n l1:"@ + v_l1 + ",l2:"@ + v_l2 + ", r1:"@ + v_r1 + ", r2:"@ + v_r2 + "\n l3:"@ + v_l3 + ", r3:"@ + v_r3 + ", start:"@ + v_start + ", select:"@ + v_select;
    let q = Seq::<Seq<char>>::empty()
        .push("\n lx :"@)
        .push(v_lx)
        .push(", ly :"@)
        .push(v_ly)
        .push("\n rx :"@)
        .push(v_rx)
        .push(", ry :"@)
        .push(v_ry)
        .push("  "@);
    assert(Seq::<char>::empty() + "x :"@ =~= "x :"@);
    assert(append_all(pre + ", back:"@ + v_back, Seq::empty()) == pre + ", back:"@ + v_back);
    assert(append_all(pre + ", back:"@ + w, Seq::empty()) == pre + ", back:"@ + w);
    assert(debug_layout(v_x, v_y, v_a, v_b, v_up, v_down, v_left, v_right, v_l1, v_l2, v_r1, v_r2, v_l3, v_r3, v_start, v_select, v_back, v_lx, v_ly, v_rx, v_ry) == append_all(pre + ", back:"@ + v_back, q));
    assert(debug_layout(v_x, v_y, v_a, v_b, v_up, v_down, v_left, v_right, v_l1, v_l2, v_r1, v_r2, v_l3, v_r3, v_start, v_select, w, v_lx, v_ly, v_rx, v_ry) == append_all(pre + ", back:"@ + w, q));
    lemma_append_all_regroup(pre + ", back:"@ + v_back, q);
    lemma_append_all_regroup(pre + ", back:"@ + w, q);
    let post = append_all(Seq::empty(), q);
    assert(slot_text(pre, ", back:"@, v_back, post) == debug_layout(v_x, v_y, v_a, v_b, v_up, v_down, v_left, v_right, v_l1, v_l2, v_r1, v_r2, v_l3, v_r3, v_start, v_select, v_back, v_lx, v_ly, v_rx, v_ry));
}

/// Replacing the value after "\n lx :"@ changes the layout only there.
proof fn lemma_layout_slot_lx(
    v_x: Seq<char>,
    v_y: Seq<char>,
    v_a: Seq<char>,
    v_b: Seq<char>,
    v_up: Seq<char>,
    v_down: Seq<char>,
    v_left: Seq<char>,
    v_right: Seq<char>,
    v_l1: Seq<char>,
    v_l2: Seq<char>,
    v_r1: Seq<char>,
    v_r2: Seq<char>,
    v_l3: Seq<char>,
    v_r3: Seq<char>,
    v_start: Seq<char>,
    v_select: Seq<char>,
    v_back: Seq<char>,
    v_lx: Seq<char>,
    v_ly: Seq<char>,
    v_rx: Seq<char>,
    v_ry: Seq<char>,
    w: Seq<char>,
)
    ensures
        differ_only_in_slot(
            debug_layout(v_x, v_y, v_a, v_b, v_up, v_down, v_left, v_right, v_l1, v_l2, v_r1, v_r2, v_l3, v_r3, v_start, v_select, v_back, v_lx, v_ly, v_rx, v_ry),
            debug_layout(v_x, v_y, v_a, v_b, v_up, v_down, v_left, v_right, v_l1, v_l2, v_r1, v_r2, v_l3, v_r3, v_start, v_select, v_back, w, v_ly, v_rx, v_ry),
            "\n lx :"@,
            v_lx,
            w,
        ),
{
    broadcast use lemma_append_all_push;

    let pre = "x :"@ + v_x + ", y  :"@ + v_y + ", a  :"@ + v_a + ",\n b  :"@ + v_b + " up:  "@ + v_up + ",\n down:  "@ + v_down + ",\n, left:"@ + v_left + ", right:"@ + v_right + " \n l1:"@ + v_l1 + ",l2:"@ + v_l2 + ", r1:"@ + v_r1 + ", r2:"@ + v_r2 + "\n l3:"@ + v_l3 + ", r3:"@ + v_r3 + ", start:"@ + v_start + ", select:"@ + v_select + ", back:"@ + v_back;
    let q = Seq::<Seq<char>>::empty()
        .push(", ly :"@)
        .push(v_ly)
        .push("\n rx :"@)
        .push(v_rx)
        .push(", ry :"@)
        .push(v_ry)
        .push("  "@);
    assert(Seq::<char>::empty() + "x :"@ =~= "x :"@);
    assert(append_all(pre + "\n lx :"@ + v_lx, Seq::empty()) == pre + "\n lx :"@ + v_lx);
    assert(append_all(pre + "\n lx :"@ + w, Seq::empty()) == pre + "\n lx :"@ + w);
    assert(debug_layout(v_x, v_y, v_a, v_b, v_up, v_down, v_left, v_right, v_l1, v_l2, v_r1, v_r2, v_l3, v_r3, v_start, v_select, v_back, v_lx, v_ly, v_rx, v_ry) == append_all(pre + "\n lx :"@ + v_lx, q));
    assert(debug_layout(v_x, v_y, v_a, v_b, v_up, v_down, v_left, v_right, v_l1, v_l2, v_r1, v_r2, v_l3, v_r3, v_start, v_select, v_back, w, v_ly, v_rx, v_ry) == append_all(pre + "\n lx :"@ + w, q));
    lemma_append_all_regroup(pre + "\n lx :"@ + v_lx, q);
    lemma_append_all_regroup(pre + "\n lx :"@ + w, q);
    let post = append_all(Seq::empty(), q);
    assert(slot_text(pre, "\n lx :"@, v_lx, post) == debug_layout(v_x, v_y, v_a, v_b, v_up, v_down, v_left, v_right, v_l1, v_l2, v_r1, v_r2, v_l3, v_r3, v_start, v_select, v_back, v_lx, v_ly, v_rx, v_ry));
}

/// Replacing the value after ", ly :"@ changes the layout only there.
proof fn lemma_layout_slot_ly(
    v_x: Seq<char>,
    v_y: Seq<char>,
    v_a: Seq<char>,
    v_b: Seq<char>,
    v_up: Seq<char>,
    v_down: Seq<char>,
    v_left: Seq<char>,
    v_right: Seq<char>,
    v_l1: Seq<char>,
    v_l2: Seq<char>,
    v_r1: Seq<char>,
    v_r2: Seq<char>,
    v_l3: Seq<char>,
    v_r3: Seq<char>,
    v_start: Seq<char>,
    v_select: Seq<char>,
    v_back: Seq<char>,
    v_lx: Seq<char>,
    v_ly: Seq<char>,
    v_rx: Seq<char>,
    v_ry: Seq<char>,
    w: Seq<char>,
)
    ensures
        differ_only_in_slot(
            debug_layout(v_x, v_y, v_a, v_b, v_up, v_down, v_left, v_right, v_l1, v_l2, v_r1, v_r2, v_l3, v_r3, v_start, v_select, v_back, v_lx, v_ly, v_rx, v_ry),
            debug_layout(v_x, v_y, v_a, v_b, v_up, v_down, v_left, v_right, v_l1, v_l2, v_r1, v_r2, v_l3, v_r3, v_start, v_select, v_back, v_lx, w, v_rx, v_ry),
            ", ly :"@,
            v_ly,
            w,
        ),
{
    broadcast use lemma_append_all_push;

    let pre = "x :"@ + v_x + ", y  :"@ + v_y + ", a  :"@ + v_a + ",\n b  :"@ + v_b + " up:  "@ + v_up + ",\n down:  "@ + v_down + ",\n, left:"@ + v_left + ", right:"@ + v_right + " \n l1:"@ + v_l1 + ",l2:"@ + v_l2 + ", r1:"@ + v_r1 + ", r2:"@ + v_r2 + "\n l3:"@ + v_l3 + ", r3:"@ + v_r3 + ", start:"@ + v_start + ", select:"@ + v_select + ", back:"@ + v_back + "\n lx :"@ + v_lx;
    let q = Seq::<Seq<char>>::empty()
        .push("\n rx :"@)
        .push(v_rx)
        .push(", ry :"@)
        .push(v_ry)
        .push("  "@);
    assert(Seq::<char>::empty() + "x :"@ =~= "x :"@);
    assert(append_all(pre + ", ly :"@ + v_ly, Seq::empty()) == pre + ", ly :"@ + v_ly);
    assert(append_all(pre + ", ly :"@ + w, Seq::empty()) == pre + ", ly :"@ + w);
    assert(debug_layout(v_x, v_y, v_a, v_b, v_up, v_down, v_left, v_right, v_l1, v_l2, v_r1, v_r2, v_l3, v_r3, v_start, v_select, v_back, v_lx, v_ly, v_rx, v_ry) == append_all(pre + ", ly :"@ + v_ly, q));
    assert(debug_layout(v_x, v_y, v_a, v_b, v_up, v_down, v_left, v_right, v_l1, v_l2, v_r1, v_r2, v_l3, v_r3, v_start, v_select, v_back, v_lx, w, v_rx, v_ry) == append_all(pre + ", ly :"@ + w, q));
    lemma_append_all_regroup(pre + ", ly :"@ + v_ly, q);
    lemma_append_all_regroup(pre + ", ly :"@ + w, q);
    let post = append_all(Seq::empty(), q);
    assert(slot_text(pre, ", ly :"@, v_ly, post) == debug_layout(v_x, v_y, v_a, v_b, v_up, v_down, v_left, v_right, v_l1, v_l2, v_r1, v_r2, v_l3, v_r3, v_start, v_select, v_back, v_lx, v_ly, v_rx, v_ry));
}

/// Replacing the value after "\n rx :"@ changes the layout only there.
proof fn lemma_layout_slot_rx(
    v_x: Seq<char>,
    v_y: Seq<char>,
    v_a: Seq<char>,
    v_b: Seq<char>,
    v_up: Seq<char>,
    v_down: Seq<char>,
    v_left: Seq<char>,
    v_right: Seq<char>,
    v_l1: Seq<char>,
    v_l2: Seq<char>,
    v_r1: Seq<char>,
    v_r2: Seq<char>,
    v_l3: Seq<char>,
    v_r3: Seq<char>,
    v_start: Seq<char>,
    v_select: Seq<char>,
    v_back: Seq<char>,
    v_lx: Seq<char>,
    v_ly: Seq<char>,
    v_rx: Seq<char>,
    v_ry: Seq<char>,
    w: Seq<char>,
)
    ensures
        differ_only_in_slot(
            debug_layout(v_x, v_y, v_a, v_b, v_up, v_down, v_left, v_right, v_l1, v_l2, v_r1, v_r2, v_l3, v_r3, v_start, v_select, v_back, v_lx, v_ly, v_rx, v_ry),
            debug_layout(v_x, v_y, v_a, v_b, v_up, v_down, v_left, v_right, v_l1, v_l2, v_r1, v_r2, v_l3, v_r3, v_start, v_select, v_back, v_lx, v_ly, w, v_ry),
            "\n rx :"@,
            v_rx,
            w,
        ),
{
    broadcast use lemma_append_all_push;

    let pre = "x :"@ + v_x + ", y  :"@ + v_y + ", a  :"@ + v_a + ",\n b  :"@ + v_b + " up:  "@ + v_up + ",\n down:  "@ + v_down + ",\n, left:"@ + v_left + ", right:"@ + v_right + " \n l1:"@ + v_l1 + ",l2:"@ + v_l2 + ", r1:"@ + v_r1 + ", r2:"@ + v_r2 + "\n l3:"@ + v_l3 + ", r3:"@ + v_r3 + ", start:"@ + v_start + ", select:"@ + v_select + ", back:"@ + v_back + "\n lx :"@ + v_lx + ", ly :"@ + v_ly;
    let q = Seq::<Seq<char>>::empty()
        .push(", ry :"@)
        .push(v_ry)
        .push("  "@);
    assert(Seq::<char>::empty() + "x :"@ =~= "x :"@);
    assert(append_all(pre + "\n rx :"@ + v_rx, Seq::empty()) == pre + "\n rx :"@ + v_rx);
    assert(append_all(pre + "\n rx :"@ + w, Seq::empty()) == pre + "\n rx :"@ + w);
    assert(debug_layout(v_x, v_y, v_a, v_b, v_up, v_down, v_left, v_right, v_l1, v_l2, v_r1, v_r2, v_l3, v_r3, v_start, v_select, v_back, v_lx, v_ly, v_rx, v_ry) == append_all(pre + "\n rx :"@ + v_rx, q));
    assert(debug_layout(v_x, v_y, v_a, v_b, v_up, v_down, v_left, v_right, v_l1, v_l2, v_r1, v_r2, v_l3, v_r3, v_start, v_select, v_back, v_lx, v_ly, w, v_ry) == append_all(pre + "\n rx :"@ + w, q));
    lemma_append_all_regroup(pre + "\n rx :"@ + v_rx, q);
    lemma_append_all_regroup(pre + "\n rx :"@ + w, q);
    let post = append_all(Seq::empty(), q);
    assert(slot_text(pre, "\n rx :"@, v_rx, post) == debug_layout(v_x, v_y, v_a, v_b, v_up, v_down, v_left, v_right, v_l1, v_l2, v_r1, v_r2, v_l3, v_r3, v_start, v_select, v_back, v_lx, v_ly, v_rx, v_ry));
}

/// Replacing the value after ", ry :"@ changes the layout only there.
proof fn lemma_layout_slot_ry(
    v_x: Seq<char>,
    v_y: Seq<char>,
    v_a: Seq<char>,
    v_b: Seq<char>,
    v_up: Seq<char>,
    v_down: Seq<char>,
    v_left: Seq<char>,
    v_right: Seq<char>,
    v_l1: Seq<char>,
    v_l2: Seq<char>,
    v_r1: Seq<char>,
    v_r2: Seq<char>,
    v_l3: Seq<char>,
    v_r3: Seq<char>,
    v_start: Seq<char>,
    v_select: Seq<char>,
    v_back: Seq<char>,
    v_lx: Seq<char>,
    v_ly: Seq<char>,
    v_rx: Seq<char>,
    v_ry: Seq<char>,
    w: Seq<char>,
)
    ensures
        differ_only_in_slot(
            debug_layout(v_x, v_y, v_a, v_b, v_up, v_down, v_left, v_right, v_l1, v_l2, v_r1, v_r2, v_l3, v_r3, v_start, v_select, v_back, v_lx, v_ly, v_rx, v_ry),
            debug_layout(v_x, v_y, v_a, v_b, v_up, v_down, v_left, v_right, v_l1, v_l2, v_r1, v_r2, v_l3, v_r3, v_start, v_select, v_back, v_lx, v_ly, v_rx, w),
            ", ry :"@,
            v_ry,
            w,
        ),
{
    broadcast use lemma_append_all_push;

    let pre = "x :"@ + v_x + ", y  :"@ + v_y + ", a  :"@ + v_a + ",\n b  :"@ + v_b + " up:  "@ + v_up + ",\n down:  "@ + v_down + ",\n, left:"@ + v_left + ", right:"@ + v_right + " \n l1:"@ + v_l1 + ",l2:"@ + v_l2 + ", r1:"@ + v_r1 + ", r2:"@ + v_r2 + "\n l3:"@ + v_l3 + ", r3:"@ + v_r3 + ", start:"@ + v_start + ", select:"@ + v_select + ", back:"@ + v_back + "\n lx :"@ + v_lx + ", ly :"@ + v_ly + "\n rx :"@ + v_rx;
    let q = Seq::<Seq<char>>::empty()
        .push("  "@);
    assert(Seq::<char>::empty() + "x :"@ =~= "x :"@);
    assert(append_all(pre + ", ry :"@ + v_ry, Seq::empty()) == pre + ", ry :"@ + v_ry);
    assert(append_all(pre + ", ry :"@ + w, Seq::empty()) == pre + ", ry :"@ + w);
    assert(debug_layout(v_x, v_y, v_a, v_b, v_up, v_down, v_left, v_right, v_l1, v_l2, v_r1, v_r2, v_l3, v_r3, v_start, v_select, v_back, v_lx, v_ly, v_rx, v_ry) == append_all(pre + ", ry :"@ + v_ry, q));
    assert(debug_layout(v_x, v_y, v_a, v_b, v_up, v_down, v_left, v_right, v_l1, v_l2, v_r1, v_r2, v_l3, v_r3, v_start, v_select, v_back, v_lx, v_ly, v_rx, w) == append_all(pre + ", ry :"@ + w, q));
    lemma_append_all_regroup(pre + ", ry :"@ + v_ry, q);
    lemma_append_all_regroup(pre + ", ry :"@ + w, q);
    let post = append_all(Seq::empty(), q);
    assert(slot_text(pre, ", ry :"@, v_ry, post) == debug_layout(v_x, v_y, v_a, v_b, v_up, v_down, v_left, v_right, v_l1, v_l2, v_r1, v_r2, v_l3, v_r3, v_start, v_select, v_back, v_lx, v_ly, v_rx, v_ry));
}

proof fn lemma_button_slot_x(b: ButtonState, l: JoystickState, r: JoystickState)
    ensures
        differ_only_in_slot(
            debug_text_of(b, l, r),
            debug_text_of((ButtonState { x: !b.x, ..b }), l, r),
            "x :"@,
            bool_text(b.x),
            bool_text(!b.x),
        ),
{
    lemma_layout_slot_x(
        bool_text(b.x),
        bool_text(b.y),
        bool_text(b.a),
        bool_text(b.b),
        bool_text(b.up),
        bool_text(b.down),
        bool_text(b.left),
        bool_text(b.right),
        bool_text(b.l1),
        bool_text(b.l2),
        bool_text(b.r1),
        bool_text(b.r2),
        bool_text(b.l3),
        bool_text(b.r3),
        bool_text(b.start),
        bool_text(b.select),
        bool_text(b.back),
        i8_text(l.x),
        i8_text(l.y),
        i8_text(r.x),
        i8_text(r.y),
        bool_text(!b.x),
    );
}

proof fn lemma_button_slot_y(b: ButtonState, l: JoystickState, r: JoystickState)
    ensures
        differ_only_in_slot(
            debug_text_of(b, l, r),
            debug_text_of((ButtonState { y: !b.y, ..b }), l, r),
            ", y  :"@,
            bool_text(b.y),
            bool_text(!b.y),
        ),
{
    lemma_layout_slot_y(
        bool_text(b.x),
        bool_text(b.y),
        bool_text(b.a),
        bool_text(b.b),
        bool_text(b.up),
        bool_text(b.down),
        bool_text(b.left),
        bool_text(b.right),
        bool_text(b.l1),
        bool_text(b.l2),
        bool_text(b.r1),
        bool_text(b.r2),
        bool_text(b.l3),
        bool_text(b.r3),
        bool_text(b.start),
        bool_text(b.select),
        bool_text(b.back),
        i8_text(l.x),
        i8_text(l.y),
        i8_text(r.x),
        i8_text(r.y),
        bool_text(!b.y),
    );
}

proof fn lemma_button_slot_a(b: ButtonState, l: JoystickState, r: JoystickState)
    ensures
        differ_only_in_slot(
            debug_text_of(b, l, r),
            debug_text_of((ButtonState { a: !b.a, ..b }), l, r),
            ", a  :"@,
            bool_text(b.a),
            bool_text(!b.a),
        ),
{
    lemma_layout_slot_a(
        bool_text(b.x),
        bool_text(b.y),
        bool_text(b.a),
        bool_text(b.b),
        bool_text(b.up),
        bool_text(b.down),
        bool_text(b.left),
        bool_text(b.right),
        bool_text(b.l1),
        bool_text(b.l2),
        bool_text(b.r1),
        bool_text(b.r2),
        bool_text(b.l3),
        bool_text(b.r3),
        bool_text(b.start),
        bool_text(b.select),
        bool_text(b.back),
        i8_text(l.x),
        i8_text(l.y),
        i8_text(r.x),
        i8_text(r.y),
        bool_text(!b.a),
    );
}

proof fn lemma_button_slot_b(b: ButtonState, l: JoystickState, r: JoystickState)
    ensures
        differ_only_in_slot(
            debug_text_of(b, l, r),
            debug_text_of((ButtonState { b: !b.b, ..b }), l, r),
            ",\n b  :"@,
            bool_text(b.b),
            bool_text(!b.b),
        ),
{
    lemma_layout_slot_b(
        bool_text(b.x),
        bool_text(b.y),
        bool_text(b.a),
        bool_text(b.b),
        bool_text(b.up),
        bool_text(b.down),
        bool_text(b.left),
        bool_text(b.right),
        bool_text(b.l1),
        bool_text(b.l2),
        bool_text(b.r1),
        bool_text(b.r2),
        bool_text(b.l3),
        bool_text(b.r3),
        bool_text(b.start),
        bool_text(b.select),
        bool_text(b.back),
        i8_text(l.x),
        i8_text(l.y),
        i8_text(r.x),
        i8_text(r.y),
        bool_text(!b.b),
    );
}

proof fn lemma_button_slot_up(b: ButtonState, l: JoystickState, r: JoystickState)
    ensures
        differ_only_in_slot(
            debug_text_of(b, l, r),
            debug_text_of((ButtonState { up: !b.up, ..b }), l, r),
            " up:  "@,
            bool_text(b.up),
            bool_text(!b.up),
        ),
{
    lemma_layout_slot_up(
        bool_text(b.x),
        bool_text(b.y),
        bool_text(b.a),
        bool_text(b.b),
        bool_text(b.up),
        bool_text(b.down),
        bool_text(b.left),
        bool_text(b.right),
        bool_text(b.l1),
        bool_text(b.l2),
        bool_text(b.r1),
        bool_text(b.r2),
        bool_text(b.l3),
        bool_text(b.r3),
        bool_text(b.start),
        bool_text(b.select),
        bool_text(b.back),
        i8_text(l.x),
        i8_text(l.y),
        i8_text(r.x),
        i8_text(r.y),
        bool_text(!b.up),
    );
}

proof fn lemma_button_slot_down(b: ButtonState, l: JoystickState, r: JoystickState)
    ensures
        differ_only_in_slot(
            debug_text_of(b, l, r),
            debug_text_of((ButtonState { down: !b.down, ..b }), l, r),
            ",\n down:  "@,
            bool_text(b.down),
            bool_text(!b.down),
        ),
{
    lemma_layout_slot_down(
        bool_text(b.x),
        bool_text(b.y),
        bool_text(b.a),
        bool_text(b.b),
        bool_text(b.up),
        bool_text(b.down),
        bool_text(b.left),
        bool_text(b.right),
        bool_text(b.l1),
        bool_text(b.l2),
        bool_text(b.r1),
        bool_text(b.r2),
        bool_text(b.l3),
        bool_text(b.r3),
        bool_text(b.start),
        bool_text(b.select),
        bool_text(b.back),
        i8_text(l.x),
        i8_text(l.y),
        i8_text(r.x),
        i8_text(r.y),
        bool_text(!b.down),
    );
}

proof fn lemma_button_slot_left(b: ButtonState, l: JoystickState, r: JoystickState)
    ensures
        differ_only_in_slot(
            debug_text_of(b, l, r),
            debug_text_of((ButtonState { left: !b.left, ..b }), l, r),
            ",\n, left:"@,
            bool_text(b.left),
            bool_text(!b.left),
        ),
{
    lemma_layout_slot_left(
        bool_text(b.x),
        bool_text(b.y),
        bool_text(b.a),
        bool_text(b.b),
        bool_text(b.up),
        bool_text(b.down),
        bool_text(b.left),
        bool_text(b.right),
        bool_text(b.l1),
        bool_text(b.l2),
        bool_text(b.r1),
        bool_text(b.r2),
        bool_text(b.l3),
        bool_text(b.r3),
        bool_text(b.start),
        bool_text(b.select),
        bool_text(b.back),
        i8_text(l.x),
        i8_text(l.y),
        i8_text(r.x),
        i8_text(r.y),
        bool_text(!b.left),
    );
}

proof fn lemma_button_slot_right(b: ButtonState, l: JoystickState, r: JoystickState)
    ensures
        differ_only_in_slot(
            debug_text_of(b, l, r),
            debug_text_of((ButtonState { right: !b.right, ..b }), l, r),
            ", right:"@,
            bool_text(b.right),
            bool_text(!b.right),
        ),
{
    lemma_layout_slot_right(
        bool_text(b.x),
        bool_text(b.y),
        bool_text(b.a),
        bool_text(b.b),
        bool_text(b.up),
        bool_text(b.down),
        bool_text(b.left),
        bool_text(b.right),
        bool_text(b.l1),
        bool_text(b.l2),
        bool_text(b.r1),
        bool_text(b.r2),
        bool_text(b.l3),
        bool_text(b.r3),
        bool_text(b.start),
        bool_text(b.select),
        bool_text(b.back),
        i8_text(l.x),
        i8_text(l.y),
        i8_text(r.x),
        i8_text(r.y),
        bool_text(!b.right),
    );
}

proof fn lemma_button_slot_l1(b: ButtonState, l: JoystickState, r: JoystickState)
    ensures
        differ_only_in_slot(
            debug_text_of(b, l, r),
            debug_text_of((ButtonState { l1: !b.l1, ..b }), l, r),
            " \n l1:"@,
            bool_text(b.l1),
            bool_text(!b.l1),
        ),
{
    lemma_layout_slot_l1(
        bool_text(b.x),
        bool_text(b.y),
        bool_text(b.a),
        bool_text(b.b),
        bool_text(b.up),
        bool_text(b.down),
        bool_text(b.left),
        bool_text(b.right),
        bool_text(b.l1),
        bool_text(b.l2),
        bool_text(b.r1),
        bool_text(b.r2),
        bool_text(b.l3),
        bool_text(b.r3),
        bool_text(b.start),
        bool_text(b.select),
        bool_text(b.back),
        i8_text(l.x),
        i8_text(l.y),
        i8_text(r.x),
        i8_text(r.y),
        bool_text(!b.l1),
    );
}

proof fn lemma_button_slot_l2(b: ButtonState, l: JoystickState, r: JoystickState)
    ensures
        differ_only_in_slot(
            debug_text_of(b, l, r),
            debug_text_of((ButtonState { l2: !b.l2, ..b }), l, r),
            ",l2:"@,
            bool_text(b.l2),
            bool_text(!b.l2),
        ),
{
    lemma_layout_slot_l2(
        bool_text(b.x),
        bool_text(b.y),
        bool_text(b.a),
        bool_text(b.b),
        bool_text(b.up),
        bool_text(b.down),
        bool_text(b.left),
        bool_text(b.right),
        bool_text(b.l1),
        bool_text(b.l2),
        bool_text(b.r1),
        bool_text(b.r2),
        bool_text(b.l3),
        bool_text(b.r3),
        bool_text(b.start),
        bool_text(b.select),
        bool_text(b.back),
        i8_text(l.x),
        i8_text(l.y),
        i8_text(r.x),
        i8_text(r.y),
        bool_text(!b.l2),
    );
}

proof fn lemma_button_slot_r1(b: ButtonState, l: JoystickState, r: JoystickState)
    ensures
        differ_only_in_slot(
            debug_text_of(b, l, r),
            debug_text_of((ButtonState { r1: !b.r1, ..b }), l, r),
            ", r1:"@,
            bool_text(b.r1),
            bool_text(!b.r1),
        ),
{
    lemma_layout_slot_r1(
        bool_text(b.x),
        bool_text(b.y),
        bool_text(b.a),
        bool_text(b.b),
        bool_text(b.up),
        bool_text(b.down),
        bool_text(b.left),
        bool_text(b.right),
        bool_text(b.l1),
        bool_text(b.l2),
        bool_text(b.r1),
        bool_text(b.r2),
        bool_text(b.l3),
        bool_text(b.r3),
        bool_text(b.start),
        bool_text(b.select),
        bool_text(b.back),
        i8_text(l.x),
        i8_text(l.y),
        i8_text(r.x),
        i8_text(r.y),
        bool_text(!b.r1),
    );
}

proof fn lemma_button_slot_r2(b: ButtonState, l: JoystickState, r: JoystickState)
    ensures
        differ_only_in_slot(
            debug_text_of(b, l, r),
            debug_text_of((ButtonState { r2: !b.r2, ..b }), l, r),
            ", r2:"@,
            bool_text(b.r2),
            bool_text(!b.r2),
        ),
{
    lemma_layout_slot_r2(
        bool_text(b.x),
        bool_text(b.y),
        bool_text(b.a),
        bool_text(b.b),
        bool_text(b.up),
        bool_text(b.down),
        bool_text(b.left),
        bool_text(b.right),
        bool_text(b.l1),
        bool_text(b.l2),
        bool_text(b.r1),
        bool_text(b.r2),
        bool_text(b.l3),
        bool_text(b.r3),
        bool_text(b.start),
        bool_text(b.select),
        bool_text(b.back),
        i8_text(l.x),
        i8_text(l.y),
        i8_text(r.x),
        i8_text(r.y),
        bool_text(!b.r2),
    );
}

proof fn lemma_button_slot_l3(b: ButtonState, l: JoystickState, r: JoystickState)
    ensures
        differ_only_in_slot(
            debug_text_of(b, l, r),
            debug_text_of((ButtonState { l3: !b.l3, ..b }), l, r),
            "\n l3:"@,
            bool_text(b.l3),
            bool_text(!b.l3),
        ),
{
    lemma_layout_slot_l3(
        bool_text(b.x),
        bool_text(b.y),
        bool_text(b.a),
        bool_text(b.b),
        bool_text(b.up),
        bool_text(b.down),
        bool_text(b.left),
        bool_text(b.right),
        bool_text(b.l1),
        bool_text(b.l2),
        bool_text(b.r1),
        bool_text(b.r2),
        bool_text(b.l3),
        bool_text(b.r3),
        bool_text(b.start),
        bool_text(b.select),
        bool_text(b.back),
        i8_text(l.x),
        i8_text(l.y),
        i8_text(r.x),
        i8_text(r.y),
        bool_text(!b.l3),
    );
}

proof fn lemma_button_slot_r3(b: ButtonState, l: JoystickState, r: JoystickState)
    ensures
        differ_only_in_slot(
            debug_text_of(b, l, r),
            debug_text_of((ButtonState { r3: !b.r3, ..b }), l, r),
            ", r3:"@,
            bool_text(b.r3),
            bool_text(!b.r3),
        ),
{
    lemma_layout_slot_r3(
        bool_text(b.x),
        bool_text(b.y),
        bool_text(b.a),
        bool_text(b.b),
        bool_text(b.up),
        bool_text(b.down),
        bool_text(b.left),
        bool_text(b.right),
        bool_text(b.l1),
        bool_text(b.l2),
        bool_text(b.r1),
        bool_text(b.r2),
        bool_text(b.l3),
        bool_text(b.r3),
        bool_text(b.start),
        bool_text(b.select),
        bool_text(b.back),
        i8_text(l.x),
        i8_text(l.y),
        i8_text(r.x),
        i8_text(r.y),
        bool_text(!b.r3),
    );
}

proof fn lemma_button_slot_start(b: ButtonState, l: JoystickState, r: JoystickState)
    ensures
        differ_only_in_slot(
            debug_text_of(b, l, r),
            debug_text_of((ButtonState { start: !b.start, ..b }), l, r),
            ", start:"@,
            bool_text(b.start),
            bool_text(!b.start),
        ),
{
    lemma_layout_slot_start(
        bool_text(b.x),
        bool_text(b.y),
        bool_text(b.a),
        bool_text(b.b),
        bool_text(b.up),
        bool_text(b.down),
        bool_text(b.left),
        bool_text(b.right),
        bool_text(b.l1),
        bool_text(b.l2),
        bool_text(b.r1),
        bool_text(b.r2),
        bool_text(b.l3),
        bool_text(b.r3),
        bool_text(b.start),
        bool_text(b.select),
        bool_text(b.back),
        i8_text(l.x),
        i8_text(l.y),
        i8_text(r.x),
        i8_text(r.y),
        bool_text(!b.start),
    );
}

proof fn lemma_button_slot_select(b: ButtonState, l: JoystickState, r: JoystickState)
    ensures
        differ_only_in_slot(
            debug_text_of(b, l, r),
            debug_text_of((ButtonState { select: !b.select, ..b }), l, r),
            ", select:"@,
            bool_text(b.select),
            bool_text(!b.select),
        ),
{
    lemma_layout_slot_select(
        bool_text(b.x),
        bool_text(b.y),
        bool_text(b.a),
        bool_text(b.b),
        bool_text(b.up),
        bool_text(b.down),
        bool_text(b.left),
        bool_text(b.right),
        bool_text(b.l1),
        bool_text(b.l2),
        bool_text(b.r1),
        bool_text(b.r2),
        bool_text(b.l3),
        bool_text(b.r3),
        bool_text(b.start),
        bool_text(b.select),
        bool_text(b.back),
        i8_text(l.x),
        i8_text(l.y),
        i8_text(r.x),
        i8_text(r.y),
        bool_text(!b.select),
    );
}

proof fn lemma_button_slot_back(b: ButtonState, l: JoystickState, r: JoystickState)
    ensures
        differ_only_in_slot(
            debug_text_of(b, l, r),
            debug_text_of((ButtonState { back: !b.back, ..b }), l, r),
            ", back:"@,
            bool_text(b.back),
            bool_text(!b.back),
        ),
{
    lemma_layout_slot_back(
        bool_text(b.x),
        bool_text(b.y),
        bool_text(b.a),
        bool_text(b.b),
        bool_text(b.up),
        bool_text(b.down),
        bool_text(b.left),
        bool_text(b.right),
        bool_text(b.l1),
        bool_text(b.l2),
        bool_text(b.r1),
        bool_text(b.r2),
        bool_text(b.l3),
        bool_text(b.r3),
        bool_text(b.start),
        bool_text(b.select),
        bool_text(b.back),
        i8_text(l.x),
        i8_text(l.y),
        i8_text(r.x),
        i8_text(r.y),
        bool_text(!b.back),
    );
}

/// Each button has a slot of its own, right after its label: the slot shows
/// that button's state, and pressing or releasing the button changes that
/// slot and nothing else in the text.
pub proof fn lemma_debug_text_button_slots(b: ButtonState, l: JoystickState, r: JoystickState)
    ensures
        differ_only_in_slot(
            debug_text_of(b, l, r),
            debug_text_of((ButtonState { x: !b.x, ..b }), l, r),
            "x :"@,
            bool_text(b.x),
            bool_text(!b.x),
        ),
        differ_only_in_slot(
            debug_text_of(b, l, r),
            debug_text_of((ButtonState { y: !b.y, ..b }), l, r),
            ", y  :"@,
            bool_text(b.y),
            bool_text(!b.y),
        ),
        differ_only_in_slot(
            debug_text_of(b, l, r),
            debug_text_of((ButtonState { a: !b.a, ..b }), l, r),
            ", a  :"@,
            bool_text(b.a),
            bool_text(!b.a),
        ),
        differ_only_in_slot(
            debug_text_of(b, l, r),
            debug_text_of((ButtonState { b: !b.b, ..b }), l, r),
            ",\n b  :"@,
            bool_text(b.b),
            bool_text(!b.b),
        ),
        differ_only_in_slot(
            debug_text_of(b, l, r),
            debug_text_of((ButtonState { up: !b.up, ..b }), l, r),
            " up:  "@,
            bool_text(b.up),
            bool_text(!b.up),
        ),
        differ_only_in_slot(
            debug_text_of(b, l, r),
            debug_text_of((ButtonState { down: !b.down, ..b }), l, r),
            ",\n down:  "@,
            bool_text(b.down),
            bool_text(!b.down),
        ),
        differ_only_in_slot(
            debug_text_of(b, l, r),
            debug_text_of((ButtonState { left: !b.left, ..b }), l, r),
            ",\n, left:"@,
            bool_text(b.left),
            bool_text(!b.left),
        ),
        differ_only_in_slot(
            debug_text_of(b, l, r),
            debug_text_of((ButtonState { right: !b.right, ..b }), l, r),
            ", right:"@,
            bool_text(b.right),
            bool_text(!b.right),
        ),
        differ_only_in_slot(
            debug_text_of(b, l, r),
            debug_text_of((ButtonState { l1: !b.l1, ..b }), l, r),
            " \n l1:"@,
            bool_text(b.l1),
            bool_text(!b.l1),
        ),
        differ_only_in_slot(
            debug_text_of(b, l, r),
            debug_text_of((ButtonState { l2: !b.l2, ..b }), l, r),
            ",l2:"@,
            bool_text(b.l2),
            bool_text(!b.l2),
        ),
        differ_only_in_slot(
            debug_text_of(b, l, r),
            debug_text_of((ButtonState { r1: !b.r1, ..b }), l, r),
            ", r1:"@,
            bool_text(b.r1),
            bool_text(!b.r1),
        ),
        differ_only_in_slot(
            debug_text_of(b, l, r),
            debug_text_of((ButtonState { r2: !b.r2, ..b }), l, r),
            ", r2:"@,
            bool_text(b.r2),
            bool_text(!b.r2),
        ),
        differ_only_in_slot(
            debug_text_of(b, l, r),
            debug_text_of((ButtonState { l3: !b.l3, ..b }), l, r),
            "\n l3:"@,
            bool_text(b.l3),
            bool_text(!b.l3),
        ),
        differ_only_in_slot(
            debug_text_of(b, l, r),
            debug_text_of((ButtonState { r3: !b.r3, ..b }), l, r),
            ", r3:"@,
            bool_text(b.r3),
            bool_text(!b.r3),
        ),
        differ_only_in_slot(
            debug_text_of(b, l, r),
            debug_text_of((ButtonState { start: !b.start, ..b }), l, r),
            ", start:"@,
            bool_text(b.start),
            bool_text(!b.start),
        ),
        differ_only_in_slot(
            debug_text_of(b, l, r),
            debug_text_of((ButtonState { select: !b.select, ..b }), l, r),
            ", select:"@,
            bool_text(b.select),
            bool_text(!b.select),
        ),
        differ_only_in_slot(
            debug_text_of(b, l, r),
            debug_text_of((ButtonState { back: !b.back, ..b }), l, r),
            ", back:"@,
            bool_text(b.back),
            bool_text(!b.back),
        ),
{
    lemma_button_slot_x(b, l, r);
    lemma_button_slot_y(b, l, r);
    lemma_button_slot_a(b, l, r);
    lemma_button_slot_b(b, l, r);
    lemma_button_slot_up(b, l, r);
    lemma_button_slot_down(b, l, r);
    lemma_button_slot_left(b, l, r);
    lemma_button_slot_right(b, l, r);
    lemma_button_slot_l1(b, l, r);
    lemma_button_slot_l2(b, l, r);
    lemma_button_slot_r1(b, l, r);
    lemma_button_slot_r2(b, l, r);
    lemma_button_slot_l3(b, l, r);
    lemma_button_slot_r3(b, l, r);
    lemma_button_slot_start(b, l, r);
    lemma_button_slot_select(b, l, r);
    lemma_button_slot_back(b, l, r);
}

/// Each stick axis has a slot of its own, right after its label: the slot
/// shows that axis's value, and moving the axis to any other value changes
/// that slot and nothing else in the text.
pub proof fn lemma_debug_text_axis_slots(
    b: ButtonState,
    l: JoystickState,
    r: JoystickState,
    v: i8,
)
    ensures
        differ_only_in_slot(
            debug_text_of(b, l, r),
            debug_text_of(b, (JoystickState { x: v, ..l }), r),
            "\n lx :"@,
            i8_text(l.x),
            i8_text(v),
        ),
        differ_only_in_slot(
            debug_text_of(b, l, r),
            debug_text_of(b, (JoystickState { y: v, ..l }), r),
            ", ly :"@,
            i8_text(l.y),
            i8_text(v),
        ),
        differ_only_in_slot(
            debug_text_of(b, l, r),
            debug_text_of(b, l, (JoystickState { x: v, ..r })),
            "\n rx :"@,
            i8_text(r.x),
            i8_text(v),
        ),
        differ_only_in_slot(
            debug_text_of(b, l, r),
            debug_text_of(b, l, (JoystickState { y: v, ..r })),
            ", ry :"@,
            i8_text(r.y),
            i8_text(v),
        ),
{
    lemma_layout_slot_lx(
        bool_text(b.x),
        bool_text(b.y),
        bool_text(b.a),
        bool_text(b.b),
        bool_text(b.up),
        bool_text(b.down),
        bool_text(b.left),
        bool_text(b.right),
        bool_text(b.l1),
        bool_text(b.l2),
        bool_text(b.r1),
        bool_text(b.r2),
        bool_text(b.l3),
        bool_text(b.r3),
        bool_text(b.start),
        bool_text(b.select),
        bool_text(b.back),
        i8_text(l.x),
        i8_text(l.y),
        i8_text(r.x),
        i8_text(r.y),
        i8_text(v),
    );
    lemma_layout_slot_ly(
        bool_text(b.x),
        bool_text(b.y),
        bool_text(b.a),
        bool_text(b.b),
        bool_text(b.up),
        bool_text(b.down),
        bool_text(b.left),
        bool_text(b.right),
        bool_text(b.l1),
        bool_text(b.l2),
        bool_text(b.r1),
        bool_text(b.r2),
        bool_text(b.l3),
        bool_text(b.r3),
        bool_text(b.start),
        bool_text(b.select),
        bool_text(b.back),
        i8_text(l.x),
        i8_text(l.y),
        i8_text(r.x),
        i8_text(r.y),
        i8_text(v),
    );
    lemma_layout_slot_rx(
        bool_text(b.x),
        bool_text(b.y),
        bool_text(b.a),
        bool_text(b.b),
        bool_text(b.up),
        bool_text(b.down),
        bool_text(b.left),
        bool_text(b.right),
        bool_text(b.l1),
        bool_text(b.l2),
        bool_text(b.r1),
        bool_text(b.r2),
        bool_text(b.l3),
        bool_text(b.r3),
        bool_text(b.start),
        bool_text(b.select),
        bool_text(b.back),
        i8_text(l.x),
        i8_text(l.y),
        i8_text(r.x),
        i8_text(r.y),
        i8_text(v),
    );
    lemma_layout_slot_ry(
        bool_text(b.x),
        bool_text(b.y),
        bool_text(b.a),
        bool_text(b.b),
        bool_text(b.up),
        bool_text(b.down),
        bool_text(b.left),
        bool_text(b.right),
        bool_text(b.l1),
        bool_text(b.l2),
        bool_text(b.r1),
        bool_text(b.r2),
        bool_text(b.l3),
        bool_text(b.r3),
        bool_text(b.start),
        bool_text(b.select),
        bool_text(b.back),
        i8_text(l.x),
        i8_text(l.y),
        i8_text(r.x),
        i8_text(r.y),
        i8_text(v),
    );
}

} // verus!
