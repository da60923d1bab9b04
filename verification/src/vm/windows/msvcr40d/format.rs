//! `sprintf` of the C runtime: `%s %d %i %u %x %X %c %p` conversions with
//! flags, width, precision and length modifiers read and ignored.

use vstd::prelude::*;

use super::{cstr_bytes, read_c_string};
use crate::registry::reg_file::decode::utf8_lossy;
use crate::vm::windows::guid::hex_char;
use crate::vm::{add32, arg, same_but_memory, store, u32_or0, wrap_add, Vm};
use vstd::utf8::encode_utf8;

verus! {

/// The decimal digits of `n`.
pub open spec fn dec_digits(n: nat) -> Seq<char>
    decreases n,
{
    if n < 10 {
        seq![(('0' as u32) + n) as char]
    } else {
        dec_digits(n / 10) + seq![(('0' as u32) + n % 10) as char]
    }
}

/// The hexadecimal digits of `n`, in lower or upper case.
pub open spec fn hex_digits(n: nat, upper: bool) -> Seq<char>
    decreases n,
{
    let d = n % 16;
    let c = if d < 10 {
        (('0' as u32) + d) as char
    } else if upper {
        (('A' as u32) + d - 10) as char
    } else {
        (('a' as u32) + d - 10) as char
    };
    if n < 16 {
        seq![c]
    } else {
        hex_digits(n / 16, upper) + seq![c]
    }
}

/// A signed decimal.
pub open spec fn int_text(v: i32) -> Seq<char> {
    if v < 0 {
        seq!['-'] + dec_digits((-v) as nat)
    } else {
        dec_digits(v as nat)
    }
}

/// `0x` and eight upper-case hexadecimal digits.
pub open spec fn pointer_text(v: u32) -> Seq<char> {
    seq!['0', 'x'] + Seq::new(8, |k: int| hex_char(((v as int / pow16(7 - k)) % 16) as nat))
}

pub open spec fn pow16(e: int) -> int
    decreases e,
{
    if e <= 0 {
        1
    } else {
        16 * pow16(e - 1)
    }
}

pub open spec fn is_flag(c: char) -> bool {
    c == '-' || c == '+' || c == ' ' || c == '#' || c == '0'
}

pub open spec fn is_digit(c: char) -> bool {
    '0' <= c <= '9'
}

/// The position after the flag characters from `i`.
pub open spec fn skip_flags(f: Seq<char>, i: int) -> int
    decreases f.len() - i,
{
    if 0 <= i < f.len() && is_flag(f[i]) {
        skip_flags(f, i + 1)
    } else {
        i
    }
}

/// The position after the digits from `i`.
pub open spec fn skip_digits(f: Seq<char>, i: int) -> int
    decreases f.len() - i,
{
    if 0 <= i < f.len() && is_digit(f[i]) {
        skip_digits(f, i + 1)
    } else {
        i
    }
}

/// A width or precision: `*` takes an argument, else digits.
pub open spec fn skip_amount(f: Seq<char>, i: int) -> (int, nat) {
    if 0 <= i < f.len() && f[i] == '*' {
        (i + 1, 1)
    } else {
        (skip_digits(f, i), 0)
    }
}

/// The position after a length modifier (`h`, `l`, `ll`, `L`, `I`, `I6`,
/// `I64`).
pub open spec fn skip_length(f: Seq<char>, i: int) -> int {
    if 0 <= i < f.len() && (f[i] == 'h' || f[i] == 'l' || f[i] == 'L' || f[i] == 'I') {
        let k = i + 1;
        if f[i] == 'l' && k < f.len() && f[k] == 'l' {
            k + 1
        } else if f[i] == 'I' && k < f.len() && f[k] == '6' {
            if k + 1 < f.len() && f[k + 1] == '4' {
                k + 2
            } else {
                k + 1
            }
        } else {
            k
        }
    } else {
        i
    }
}

/// A directive starting after its `%` at `i`: where its conversion
/// character stands, and how many arguments its width and precision take.
pub open spec fn directive(f: Seq<char>, i: int) -> (int, nat) {
    let (w_end, w_args) = skip_amount(f, skip_flags(f, i));
    let (p_end, p_args) = if 0 <= w_end < f.len() && f[w_end] == '.' {
        skip_amount(f, w_end + 1)
    } else {
        (w_end, 0)
    };
    (skip_length(f, p_end), w_args + p_args)
}

/// The text of one conversion of the argument at `ap`, and whether it took
/// the argument.
pub open spec fn conversion(vm: &Vm, c: char, ap: u32) -> (Seq<char>, bool) {
    let v = u32_or0(vm, ap as int);
    if c == 's' {
        (utf8_lossy(cstr_bytes(vm, v)), true)
    } else if c == 'd' || c == 'i' {
        (int_text(v as i32), true)
    } else if c == 'u' {
        (dec_digits(v as nat), true)
    } else if c == 'x' {
        (hex_digits(v as nat, false), true)
    } else if c == 'X' {
        (hex_digits(v as nat, true), true)
    } else if c == 'c' {
        (seq![((v % 256) as u8) as char], true)
    } else if c == 'p' {
        (pointer_text(v), true)
    } else {
        (seq!['%', c], false)
    }
}

/// The text that the format `f` from position `i` produces, with the
/// arguments from `ap` on.
pub open spec fn formatted(vm: &Vm, f: Seq<char>, i: int, ap: u32) -> Seq<char>
    decreases f.len() - i,
{
    if i < 0 || i >= f.len() {
        Seq::empty()
    } else if f[i] != '%' {
        seq![f[i]] + formatted(vm, f, i + 1, ap)
    } else if i + 1 < f.len() && f[i + 1] == '%' {
        seq!['%'] + formatted(vm, f, i + 2, ap)
    } else {
        proof {
            lemma_directive_bounds(f, i + 1);
        }
        let (k, n) = directive(f, i + 1);
        let ap1 = if n == 0 { ap } else if n == 1 { add32(ap, 4) } else { add32(add32(ap, 4), 4) };
        let c = if k < f.len() { f[k] } else { '%' };
        let (text, used) = conversion(vm, c, ap1);
        let ap2 = if used { add32(ap1, 4) } else { ap1 };
        if k < f.len() {
            text + formatted(vm, f, k + 1, ap2)
        } else {
            text
        }
    }
}

pub proof fn lemma_skip_bounds(f: Seq<char>, i: int)
    requires
        0 <= i <= f.len(),
    ensures
        i <= skip_flags(f, i) <= f.len(),
        i <= skip_digits(f, i) <= f.len(),
    decreases f.len() - i,
{
    if i < f.len() {
        lemma_skip_bounds(f, i + 1);
    }
}

pub proof fn lemma_directive_bounds(f: Seq<char>, i: int)
    requires
        0 <= i <= f.len(),
    ensures
        i <= directive(f, i).0 <= f.len(),
        directive(f, i).1 <= 2,
{
    lemma_skip_bounds(f, i);
    let s = skip_flags(f, i);
    lemma_skip_bounds(f, s);
    let (w_end, _) = skip_amount(f, s);
    if 0 <= w_end < f.len() && f[w_end] == '.' {
        lemma_skip_bounds(f, w_end + 1);
    }
}

fn skip_flags_exec(f: &[char], i: usize) -> (r: usize)
    requires
        i <= f@.len(),
    ensures
        r == skip_flags(f@, i as int),
    decreases f.len() - i,
{
    if i < f.len() && (f[i] == '-' || f[i] == '+' || f[i] == ' ' || f[i] == '#' || f[i] == '0') {
        skip_flags_exec(f, i + 1)
    } else {
        i
    }
}

fn skip_digits_exec(f: &[char], i: usize) -> (r: usize)
    requires
        i <= f@.len(),
    ensures
        r == skip_digits(f@, i as int),
    decreases f.len() - i,
{
    if i < f.len() && '0' <= f[i] && f[i] <= '9' {
        skip_digits_exec(f, i + 1)
    } else {
        i
    }
}

fn skip_amount_exec(f: &[char], i: usize) -> (r: (usize, u32))
    requires
        i <= f@.len(),
    ensures
        (r.0 as int, r.1 as nat) == skip_amount(f@, i as int),
{
    if i < f.len() && f[i] == '*' {
        (i + 1, 1)
    } else {
        (skip_digits_exec(f, i), 0)
    }
}

fn skip_length_exec(f: &[char], i: usize) -> (r: usize)
    requires
        i <= f@.len(),
    ensures
        r == skip_length(f@, i as int),
{
    if i < f.len() && (f[i] == 'h' || f[i] == 'l' || f[i] == 'L' || f[i] == 'I') {
        let k = i + 1;
        if f[i] == 'l' && k < f.len() && f[k] == 'l' {
            k + 1
        } else if f[i] == 'I' && k < f.len() && f[k] == '6' {
            if k + 1 < f.len() && f[k + 1] == '4' {
                k + 2
            } else {
                k + 1
            }
        } else {
            k
        }
    } else {
        i
    }
}

fn directive_exec(f: &[char], i: usize) -> (r: (usize, u32))
    requires
        i <= f@.len(),
    ensures
        (r.0 as int, r.1 as nat) == directive(f@, i as int),
{
    proof {
        lemma_directive_bounds(f@, i as int);
        lemma_skip_bounds(f@, i as int);
    }
    let s = skip_flags_exec(f, i);
    proof {
        lemma_skip_bounds(f@, s as int);
    }
    let (w_end, w_args) = skip_amount_exec(f, s);
    let (p_end, p_args) = if w_end < f.len() && f[w_end] == '.' {
        proof {
            lemma_skip_bounds(f@, w_end + 1);
        }
        skip_amount_exec(f, w_end + 1)
    } else {
        (w_end, 0)
    };
    proof {
        lemma_skip_bounds(f@, p_end as int);
    }
    (skip_length_exec(f, p_end), w_args + p_args)
}

/// The decimal digits of `n`.
pub fn push_dec(out: &mut Vec<char>, n: u32)
    ensures
        final(out)@ == old(out)@ + dec_digits(n as nat),
    decreases n,
{
    if n >= 10 {
        push_dec(out, n / 10);
    }
    let d = n % 10;
    out.push(char_of_digit(d));
}

fn char_of_digit(d: u32) -> (c: char)
    requires
        d < 16,
    ensures
        c == (if d < 10 { (('0' as u32) + d) as char } else { (('A' as u32) + d - 10) as char }),
{
    if d < 10 {
        (48 + d as u8) as char
    } else {
        (55 + d as u8) as char
    }
}

/// The hexadecimal digits of `n`.
pub fn push_hex(out: &mut Vec<char>, n: u32, upper: bool)
    ensures
        final(out)@ == old(out)@ + hex_digits(n as nat, upper),
    decreases n,
{
    if n >= 16 {
        push_hex(out, n / 16, upper);
    }
    let d = n % 16;
    let c = if d < 10 {
        (48 + d as u8) as char
    } else if upper {
        (55 + d as u8) as char
    } else {
        (87 + d as u8) as char
    };
    out.push(c);
}

fn push_seq(out: &mut Vec<char>, s: &Vec<char>)
    ensures
        final(out)@ == old(out)@ + s@,
{
    let mut i: usize = 0;
    let ghost start = out@;
    while i < s.len()
        invariant
            i <= s@.len(),
            out@ == start + s@.take(i as int),
        decreases s.len() - i,
    {
        out.push(s[i]);
        i = i + 1;
        assert(out@ =~= start + s@.take(i as int));
    }
    assert(s@.take(s@.len() as int) =~= s@);
}

/// Appends the text of one conversion; returns whether it took the
/// argument.
fn push_conversion(vm: &Vm, out: &mut Vec<char>, c: char, ap: u32) -> (used: bool)
    ensures
        final(out)@ == old(out)@ + conversion(vm, c, ap).0,
        used == conversion(vm, c, ap).1,
{
    let v = vm.read_u32_or0(ap);
    if c == 's' {
        let text = read_c_string(vm, v);
        let cs = crate::text::chars_of(text.as_str());
        push_seq(out, &cs);
        assert(out@ =~= old(out)@ + conversion(vm, c, ap).0);
        true
    } else if c == 'd' || c == 'i' {
        proof {
            lemma_i32_of_u32(v);
        }
        if v >= 0x8000_0000 {
            out.push('-');
            let m = (0x1_0000_0000u64 - v as u64) as u32;
            push_dec(out, m);
            assert(out@ =~= old(out)@ + int_text(v as i32));
        } else {
            push_dec(out, v);
        }
        assert(out@ =~= old(out)@ + conversion(vm, c, ap).0);
        true
    } else if c == 'u' {
        push_dec(out, v);
        assert(out@ =~= old(out)@ + conversion(vm, c, ap).0);
        true
    } else if c == 'x' {
        push_hex(out, v, false);
        assert(out@ =~= old(out)@ + conversion(vm, c, ap).0);
        true
    } else if c == 'X' {
        push_hex(out, v, true);
        assert(out@ =~= old(out)@ + conversion(vm, c, ap).0);
        true
    } else if c == 'c' {
        out.push(((v % 256) as u8) as char);
        assert(out@ =~= old(out)@ + conversion(vm, c, ap).0);
        true
    } else if c == 'p' {
        out.push('0');
        out.push('x');
        let mut k: u32 = 0;
        let ghost start = out@;
        while k < 8
            invariant
                k <= 8,
                out@ == start + Seq::new(k as nat, |j: int| hex_char(((v as int / pow16(7 - j)) % 16) as nat)),
            decreases 8 - k,
        {
            let shift = 28 - 4 * k;
            let d = (v >> shift) % 16;
            proof {
                lemma_shift_is_div(v, k);
            }
            out.push(char_of_digit(d));
            k = k + 1;
            assert(out@ =~= start + Seq::new(k as nat, |j: int| hex_char(((v as int / pow16(7 - j)) % 16) as nat)));
        }
        assert(out@ =~= old(out)@ + pointer_text(v));
        assert(out@ =~= old(out)@ + conversion(vm, c, ap).0);
        true
    } else {
        out.push('%');
        out.push(c);
        assert(out@ =~= old(out)@ + conversion(vm, c, ap).0);
        false
    }
}

/// A 32-bit pattern read as a signed number.
pub proof fn lemma_i32_of_u32(v: u32)
    ensures
        v < 0x8000_0000 ==> (v as i32) as int == v as int,
        v >= 0x8000_0000 ==> (v as i32) as int == v as int - 0x1_0000_0000,
{
    assert(v < 0x8000_0000 ==> (v as i32) as i64 == v as i64) by (bit_vector);
    assert(v >= 0x8000_0000 ==> (v as i32) as i64 == v as i64 - 0x1_0000_0000i64) by (bit_vector);
}

proof fn lemma_shift_is_div(v: u32, k: u32)
    requires
        k < 8,
    ensures
        (v >> (28 - 4 * k)) as int == v as int / pow16(7 - k as int),
{
    reveal_with_fuel(pow16, 8);
    let s = (28 - 4 * k) as u32;
    assert(v >> s == v / (1u32 << s)) by (bit_vector)
        requires
            s < 32,
    ;
    assert((1u32 << s) as int == pow16(7 - k as int)) by {
        if k == 0 {
            assert((1u32 << 28u32) == 0x1000_0000) by (bit_vector);
        } else if k == 1 {
            assert((1u32 << 24u32) == 0x100_0000) by (bit_vector);
        } else if k == 2 {
            assert((1u32 << 20u32) == 0x10_0000) by (bit_vector);
        } else if k == 3 {
            assert((1u32 << 16u32) == 0x1_0000) by (bit_vector);
        } else if k == 4 {
            assert((1u32 << 12u32) == 0x1000) by (bit_vector);
        } else if k == 5 {
            assert((1u32 << 8u32) == 0x100) by (bit_vector);
        } else if k == 6 {
            assert((1u32 << 4u32) == 0x10) by (bit_vector);
        } else {
            assert((1u32 << 0u32) == 1) by (bit_vector);
        }
    }
}

/// The text that a format produces with the arguments from `ap` on.
pub fn format_text(vm: &Vm, f: &[char], ap: u32) -> (r: Vec<char>)
    ensures
        r@ == formatted(vm, f@, 0, ap),
{
    let mut out: Vec<char> = Vec::new();
    let mut i: usize = 0;
    let mut ap = ap;
    let ghost ap0 = ap;
    while i < f.len()
        invariant
            i <= f@.len(),
            formatted(vm, f@, 0, ap0) == out@ + formatted(vm, f@, i as int, ap),
        decreases f.len() - i,
    {
        let ghost before = out@;
        let ch = f[i];
        if ch != '%' {
            out.push(ch);
            i = i + 1;
            assert(out@ =~= before + seq![ch]);
        } else if i + 1 < f.len() && f[i + 1] == '%' {
            out.push('%');
            i = i + 2;
            assert(out@ =~= before + seq!['%']);
        } else {
            let ghost i0 = i as int;
            let ghost ap_start = ap;
            let (k, n) = directive_exec(f, i + 1);
            proof {
                lemma_directive_bounds(f@, i + 1);
            }
            let mut m: u32 = 0;
            while m < n
                invariant
                    n <= 2,
                    m <= n,
                    ap == (if m == 0 { ap_start } else if m == 1 { add32(ap_start, 4) } else { add32(add32(ap_start, 4), 4) }),
                decreases n - m,
            {
                ap = wrap_add(ap, 4);
                m = m + 1;
            }
            let c = if k < f.len() { f[k] } else { '%' };
            let used = push_conversion(vm, &mut out, c, ap);
            if used {
                ap = wrap_add(ap, 4);
            }
            if k < f.len() {
                i = k + 1;
            } else {
                i = f.len();
                assert(formatted(vm, f@, i as int, ap) =~= Seq::<char>::empty());
            }
            assert(formatted(vm, f@, i0, ap_start) =~= (out@.subrange(before.len() as int, out@.len() as int)) + formatted(vm, f@, i as int, ap));
            assert(out@ =~= before + out@.subrange(before.len() as int, out@.len() as int));
        }
    }
    assert(out@ + Seq::<char>::empty() =~= out@);
    out
}

/// The UTF-8 bytes of a text.
fn utf8_bytes(s: &String) -> (r: Vec<u8>)
    ensures
        r@ == encode_utf8(s@),
{
    let b = s.as_str().as_bytes();
    let mut out: Vec<u8> = Vec::new();
    let mut i: usize = 0;
    while i < b.len()
        invariant
            i <= b@.len(),
            out@ == b@.take(i as int),
        decreases b.len() - i,
    {
        out.push(b[i]);
        i = i + 1;
        assert(out@ =~= b@.take(i as int));
    }
    assert(b@.take(b@.len() as int) =~= b@);
    out
}

/// What `sprintf` returns (`r`) and leaves (`post`) on the machine `pre`.
pub open spec fn sprintf_effect(pre: &Vm, post: &Vm, stack_ptr: u32, r: u32) -> bool {
    &&& same_but_memory(pre, post)
    &&& ({
        let dst = arg(pre, stack_ptr, 0);
        let f = utf8_lossy(cstr_bytes(pre, arg(pre, stack_ptr, 1)));
        let bytes = encode_utf8(formatted(pre, f, 0, add32(stack_ptr, 12)));
        if f.len() == 0 {
            r == 0 && post.memory@ == if dst == 0 {
                pre.memory@
            } else {
                store(pre.base, pre.memory@, dst as int, seq![0u8])
            }
        } else {
            r == bytes.len() as u32 && post.memory@ == if dst == 0 {
                pre.memory@
            } else {
                store(pre.base, pre.memory@, dst as int, bytes.push(0))
            }
        }
    })
}

/// `sprintf(dst, format, ...)`: formats the arguments after `format` and
/// writes the text's UTF-8 bytes and a NUL at `dst` (where non-null and in
/// memory); returns the byte length. An empty format writes only the NUL.
pub fn sprintf(vm: &mut Vm, stack_ptr: u32) -> (r: u32)
    ensures
        sprintf_effect(old(vm), final(vm), stack_ptr, r),
{
    let dst = vm.arg(stack_ptr, 0);
    let fmt_ptr = vm.arg(stack_ptr, 1);
    let format = read_c_string(vm, fmt_ptr);
    let f = crate::text::chars_of(format.as_str());
    if f.len() == 0 {
        if dst != 0 {
            let _ = vm.write_u8(dst, 0);
        }
        return 0;
    }
    let text = format_text(vm, f.as_slice(), wrap_add(stack_ptr, 12));
    let output = crate::text::string_from(text.as_slice());
    let mut bytes = utf8_bytes(&output);
    let len = bytes.len();
    if dst != 0 {
        bytes.push(0);
        let _ = vm.write_bytes(dst, bytes.as_slice());
    }
    len as u32
}

/// `%d` and `%i` convert alike: the 32-bit argument read as a signed
/// integer in decimal, with a `-` for arguments from `0x8000_0000` on
/// (the text of `2^32` minus the argument) and the plain digits below.
pub proof fn law_signed_conversions(vm: &Vm, ap: u32)
    ensures
        conversion(vm, 'i', ap) == conversion(vm, 'd', ap),
        conversion(vm, 'd', ap).1,
        ({
            let v = u32_or0(vm, ap as int);
            conversion(vm, 'd', ap).0 == if v >= 0x8000_0000 {
                seq!['-'] + dec_digits((0x1_0000_0000 - v) as nat)
            } else {
                dec_digits(v as nat)
            }
        }),
{
    let v = u32_or0(vm, ap as int);
    if v >= 0x8000_0000 {
        assert((v as i32) as int == v - 0x1_0000_0000) by (bit_vector)
            requires
                v >= 0x8000_0000u32,
        ;
    } else {
        assert((v as i32) as int == v as int) by (bit_vector)
            requires
                v < 0x8000_0000u32,
        ;
    }
}

} // verus!
