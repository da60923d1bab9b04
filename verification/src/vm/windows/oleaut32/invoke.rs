//! `ITypeInfo::Invoke`: which function a call means, the arguments it gets
//! from the DISPPARAMS, the vtable entry it runs, and what is stored of
//! what it returns. The call itself runs guest code on the machine's CPU:
//! `invoke_prepare` decides what to call, `invoke_finish` takes what the
//! call returned.

use vstd::prelude::*;

use super::constants::{
    DISP_E_BADPARAMCOUNT, DISP_E_MEMBERNOTFOUND, DISP_E_TYPEMISMATCH, E_NOTIMPL, S_OK, VT_HRESULT,
    PARAMFLAG_FIN, PARAMFLAG_FOUT, PARAMFLAG_FRETVAL, VARIANT_SIZE, VT_ARRAY, VT_BSTR, VT_BYREF, VT_EMPTY, VT_I4,
    VT_INT, VT_NULL, VT_UI1, VT_UI4, VT_UINT, VT_USERDEFINED, VT_VARIANT, VT_VOID,
};
use super::typeinfo::{holds_bytes, resolve_typeinfo_info, typeinfo_call};
use super::typelib::{FuncDesc, FuncModel, ParamDesc, TypeInfoData};
use super::typelib_api::stored_u32;
use crate::vm::com::ComOutParam;
use super::variant::{variant_u32_parts, write_variant_u32};
use crate::vm::{
    add32, align_up, lemma_allocated_grows, lemma_heap_grown_trans, alloc_at, allocated, apply_writes, block_image, bytes32, heap_grown, in_range, store,
    BLOCK_HEADER, mem_u16, mem_u32, same_but_heap, same_but_memory, u32_or0,
    u8_or0, wrap_add, Vm, VmError,
};

verus! {

/// The nine 32-bit stack slots from the stack pointer (the return address
/// first), unreadable ones as 0.
pub open spec fn stack_slots(vm: &Vm, sp: u32) -> Seq<u32> {
    Seq::new(9, |i: int| u32_or0(vm, add32(sp, (4 * i) as u32) as int))
}

pub fn read_stack_slots(vm: &Vm, stack_ptr: u32) -> (r: [u32; 9])
    ensures
        r@ == stack_slots(vm, stack_ptr),
{
    let mut slots = [0u32; 9];
    let mut i: usize = 0;
    while i < 9
        invariant
            i <= 9,
            slots@.len() == 9,
            forall|j: int| 0 <= j < i ==> slots@[j] == u32_or0(vm, add32(stack_ptr, (4 * j) as u32) as int),
        decreases 9 - i,
    {
        slots[i] = vm.read_u32_or0(wrap_add(stack_ptr, (i * 4) as u32));
        i = i + 1;
    }
    assert(slots@ =~= stack_slots(vm, stack_ptr));
    slots
}

/// The arguments of an `Invoke` call.
#[derive(Debug, Clone, Copy, PartialEq, Eq)]
pub struct InvokeArgs {
    pub instance: u32,
    pub memid: u32,
    pub flags: u16,
    pub disp_params: u32,
    pub result_ptr: u32,
    pub arg_err: u32,
}

/// Whether some function of the type info has the member id `memid`.
pub open spec fn has_memid(funcs: Seq<FuncDesc>, memid: u32) -> bool {
    exists|i: int| 0 <= i < funcs.len() && (#[trigger] funcs[i]).memid == memid
}

pub fn find_memid(info: &TypeInfoData, memid: u32) -> (r: bool)
    ensures
        r == has_memid(info.funcs@, memid),
{
    let mut i: usize = 0;
    while i < info.funcs.len()
        invariant
            i <= info.funcs@.len(),
            forall|j: int| 0 <= j < i ==> (#[trigger] info.funcs@[j]).memid != memid,
        decreases info.funcs.len() - i,
    {
        if info.funcs[i].memid == memid {
            return true;
        }
        i = i + 1;
    }
    false
}

/// The four layouts in which callers pass the arguments, from slot `b` on:
/// instance, member id, flags, DISPPARAMS, result, (exception info), and
/// argument-error pointer; the same without the flags; and both with the
/// instance and member id swapped.
pub open spec fn layouts(s: Seq<u32>, b: int) -> Seq<InvokeArgs> {
    seq![
        InvokeArgs { instance: s[b], memid: s[b + 1], flags: s[b + 2] as u16, disp_params: s[b + 3], result_ptr: s[b + 4], arg_err: s[b + 6] },
        InvokeArgs { instance: s[b], memid: s[b + 1], flags: 0, disp_params: s[b + 2], result_ptr: s[b + 3], arg_err: s[b + 5] },
        InvokeArgs { instance: s[b + 1], memid: s[b], flags: 0, disp_params: s[b + 2], result_ptr: s[b + 3], arg_err: s[b + 5] },
        InvokeArgs { instance: s[b + 1], memid: s[b], flags: s[b + 2] as u16, disp_params: s[b + 3], result_ptr: s[b + 4], arg_err: s[b + 6] },
    ]
}

/// The first layout whose member id some function has; the first layout
/// where none has.
pub open spec fn chosen_layout(funcs: Seq<FuncDesc>, ls: Seq<InvokeArgs>) -> InvokeArgs {
    if has_memid(funcs, ls[0].memid) {
        ls[0]
    } else if has_memid(funcs, ls[1].memid) {
        ls[1]
    } else if has_memid(funcs, ls[2].memid) {
        ls[2]
    } else if has_memid(funcs, ls[3].memid) {
        ls[3]
    } else {
        ls[0]
    }
}

/// Reads the arguments of an `Invoke` call in whichever layout names a
/// member of the type info; they start at the first slot after the return
/// address for a thiscall, else after `this`.
pub fn select_invoke_args(info: &TypeInfoData, slots: &[u32; 9], thiscall: bool) -> (r: InvokeArgs)
    ensures
        r == chosen_layout(info.funcs@, layouts(slots@, if thiscall { 1 } else { 2 })),
{
    let b: usize = if thiscall {
        1
    } else {
        2
    };
    let normal = InvokeArgs {
        instance: slots[b],
        memid: slots[b + 1],
        flags: slots[b + 2] as u16,
        disp_params: slots[b + 3],
        result_ptr: slots[b + 4],
        arg_err: slots[b + 6],
    };
    let no_flags = InvokeArgs {
        instance: slots[b],
        memid: slots[b + 1],
        flags: 0,
        disp_params: slots[b + 2],
        result_ptr: slots[b + 3],
        arg_err: slots[b + 5],
    };
    let swapped_no_flags = InvokeArgs {
        instance: slots[b + 1],
        memid: slots[b],
        flags: 0,
        disp_params: slots[b + 2],
        result_ptr: slots[b + 3],
        arg_err: slots[b + 5],
    };
    let swapped_normal = InvokeArgs {
        instance: slots[b + 1],
        memid: slots[b],
        flags: slots[b + 2] as u16,
        disp_params: slots[b + 3],
        result_ptr: slots[b + 4],
        arg_err: slots[b + 6],
    };
    let ghost ls = layouts(slots@, b as int);
    assert(ls[0] == normal && ls[1] == no_flags && ls[2] == swapped_no_flags && ls[3] == swapped_normal);
    if find_memid(info, normal.memid) {
        normal
    } else if find_memid(info, no_flags.memid) {
        no_flags
    } else if find_memid(info, swapped_no_flags.memid) {
        swapped_no_flags
    } else if find_memid(info, swapped_normal.memid) {
        swapped_normal
    } else {
        normal
    }
}

/// Whether a parameter is marked as the return value.
pub open spec fn is_retval(p: ParamDesc) -> bool {
    p.flags & PARAMFLAG_FRETVAL != 0
}

/// How many parameters are not marked as the return value.
pub open spec fn non_retval_count(ps: Seq<ParamDesc>) -> nat
    decreases ps.len(),
{
    if ps.len() == 0 {
        0
    } else {
        non_retval_count(ps.drop_last()) + if is_retval(ps.last()) {
            0nat
        } else {
            1nat
        }
    }
}

pub proof fn lemma_non_retval_count_le(ps: Seq<ParamDesc>)
    ensures
        non_retval_count(ps) <= ps.len(),
    decreases ps.len(),
{
    if ps.len() > 0 {
        lemma_non_retval_count_le(ps.drop_last());
    }
}

/// How many inputs a function can take: its parameters not marked as the
/// return value; but where it has a return type of its own (not VOID,
/// EMPTY or HRESULT) and a single parameter marked as the return value,
/// that parameter is taken for an input marked wrongly.
pub open spec fn inputs_of(f: FuncModel) -> nat {
    if f.ret_vt != VT_VOID && f.ret_vt != VT_EMPTY && f.ret_vt != VT_HRESULT && f.params.len() == 1 && is_retval(f.params[0]) {
        1
    } else {
        non_retval_count(f.params)
    }
}

pub fn expected_inputs(func: &FuncDesc) -> (r: usize)
    ensures
        r == inputs_of(func.model()),
        r <= func.params@.len(),
{
    let has_explicit_return = func.ret_vt != VT_VOID && func.ret_vt != VT_EMPTY && func.ret_vt != VT_HRESULT;
    if has_explicit_return && func.params.len() == 1 && func.params[0].flags & PARAMFLAG_FRETVAL != 0 {
        return 1;
    }
    let mut count: usize = 0;
    let mut i: usize = 0;
    while i < func.params.len()
        invariant
            i <= func.params@.len(),
            count == non_retval_count(func.params@.take(i as int)),
            count <= i,
        decreases func.params.len() - i,
    {
        proof {
            assert(func.params@.take(i + 1).drop_last() =~= func.params@.take(i as int));
        }
        if func.params[i].flags & PARAMFLAG_FRETVAL == 0 {
            count = count + 1;
        }
        i = i + 1;
    }
    assert(func.params@.take(func.params@.len() as int) =~= func.params@);
    count
}

/// Whether a function is a candidate for a call: its member id is `memid`
/// and, where the kind is to be matched, its kind is none or shares a bit
/// with `flags`.
pub open spec fn candidate(f: FuncModel, memid: u32, flags: u16, by_kind: bool) -> bool {
    &&& f.memid == memid
    &&& by_kind ==> (f.invkind == 0 || flags & f.invkind != 0)
}

/// Of the first `k` functions, the candidate that takes at least `n`
/// inputs with the fewest to spare, and of those the one with the most
/// parameters, the first where they tie.
pub open spec fn best_upto(fs: Seq<FuncModel>, memid: u32, flags: u16, by_kind: bool, n: nat, k: int) -> Option<int>
    decreases k,
{
    if k <= 0 {
        None
    } else {
        let prev = best_upto(fs, memid, flags, by_kind, n, k - 1);
        let f = fs[k - 1];
        if candidate(f, memid, flags, by_kind) && n <= inputs_of(f) {
            match prev {
                None => Some(k - 1),
                Some(j) => {
                    let d = inputs_of(f) - n;
                    let dj = inputs_of(fs[j]) - n;
                    if d < dj || (d == dj && f.params.len() > fs[j].params.len()) {
                        Some(k - 1)
                    } else {
                        Some(j)
                    }
                },
            }
        } else {
            prev
        }
    }
}

pub proof fn lemma_best_upto_range(fs: Seq<FuncModel>, memid: u32, flags: u16, by_kind: bool, n: nat, k: int)
    requires
        k <= fs.len(),
    ensures
        best_upto(fs, memid, flags, by_kind, n, k) matches Some(j) ==> 0 <= j < k && candidate(fs[j], memid, flags, by_kind),
    decreases k,
{
    if k > 0 {
        lemma_best_upto_range(fs, memid, flags, by_kind, n, k - 1);
    }
}

/// The best candidate among all functions.
pub fn select_best_func(info: &TypeInfoData, memid: u32, flags: u16, by_kind: bool, arg_count: usize) -> (r: Option<usize>)
    ensures
        r == (match best_upto(info.model().funcs, memid, flags, by_kind, arg_count as nat, info.funcs@.len() as int) {
            Some(j) => Some(j as usize),
            None => None::<usize>,
        }),
        match r {
            Some(j) => best_upto(info.model().funcs, memid, flags, by_kind, arg_count as nat, info.funcs@.len() as int)
                == Some(j as int),
            None => best_upto(info.model().funcs, memid, flags, by_kind, arg_count as nat, info.funcs@.len() as int)
                is None,
        },
{
    let ghost fs = info.model().funcs;
    let mut best: Option<usize> = None;
    let mut best_diff: usize = 0;
    let mut best_total: usize = 0;
    let mut i: usize = 0;
    while i < info.funcs.len()
        invariant
            i <= info.funcs@.len(),
            fs == info.model().funcs,
            fs.len() == info.funcs@.len(),
            best_upto(fs, memid, flags, by_kind, arg_count as nat, i as int) == (match best {
                Some(j) => Some(j as int),
                None => None::<int>,
            }),
            best matches Some(j) ==> j < i && best_diff == inputs_of(fs[j as int]) - arg_count
                && best_total == fs[j as int].params.len(),
        decreases info.funcs.len() - i,
    {
        let f = &info.funcs[i];
        assert(fs[i as int] == f.model());
        let cand = f.memid == memid && (!by_kind || f.invkind == 0 || flags & f.invkind != 0);
        if cand {
            let e = expected_inputs(f);
            if arg_count <= e {
                let d = e - arg_count;
                let total = f.params.len();
                match best {
                    None => {
                        best = Some(i);
                        best_diff = d;
                        best_total = total;
                    },
                    Some(_) => {
                        if d < best_diff || (d == best_diff && total > best_total) {
                            best = Some(i);
                            best_diff = d;
                            best_total = total;
                        }
                    },
                }
            }
        }
        i = i + 1;
    }
    best
}

/// The function a call means: of the functions with the member id, the
/// best of those whose kind matches `flags` (where flags are given), else
/// the best of all; none where no function has the member id.
pub open spec fn invoke_func(info: TypeInfoData, memid: u32, flags: u16, n: nat) -> Option<int> {
    let fs = info.model().funcs;
    if !has_memid(info.funcs@, memid) {
        None
    } else if flags != 0 && best_upto(fs, memid, flags, true, n, fs.len() as int) is Some {
        best_upto(fs, memid, flags, true, n, fs.len() as int)
    } else {
        best_upto(fs, memid, flags, false, n, fs.len() as int)
    }
}

pub fn select_invoke_func(info: &TypeInfoData, memid: u32, flags: u16, arg_count: usize) -> (r: Option<usize>)
    ensures
        r == (match invoke_func(*info, memid, flags, arg_count as nat) {
            Some(j) => Some(j as usize),
            None => None::<usize>,
        }),
        r matches Some(j) ==> j < info.funcs@.len(),
        match r {
            Some(j) => invoke_func(*info, memid, flags, arg_count as nat) == Some(j as int),
            None => invoke_func(*info, memid, flags, arg_count as nat) is None,
        },
{
    proof {
        let fs = info.model().funcs;
        lemma_best_upto_range(fs, memid, flags, true, arg_count as nat, fs.len() as int);
        lemma_best_upto_range(fs, memid, flags, false, arg_count as nat, fs.len() as int);
    }
    if !find_memid(info, memid) {
        return None;
    }
    if flags != 0 {
        let best = select_best_func(info, memid, flags, true, arg_count);
        if best.is_some() {
            return best;
        }
    }
    select_best_func(info, memid, flags, false, arg_count)
}

/// The most inputs any function with the member id takes (0 where none
/// has it), over the first `k` functions.
pub open spec fn max_inputs_upto(fs: Seq<FuncModel>, memid: u32, k: int) -> nat
    decreases k,
{
    if k <= 0 {
        0
    } else {
        let prev = max_inputs_upto(fs, memid, k - 1);
        if fs[k - 1].memid == memid && inputs_of(fs[k - 1]) > prev {
            inputs_of(fs[k - 1])
        } else {
            prev
        }
    }
}

pub fn max_expected_inputs(info: &TypeInfoData, memid: u32) -> (r: usize)
    ensures
        r == max_inputs_upto(info.model().funcs, memid, info.funcs@.len() as int),
{
    let ghost fs = info.model().funcs;
    let mut best: usize = 0;
    let mut i: usize = 0;
    while i < info.funcs.len()
        invariant
            i <= info.funcs@.len(),
            fs == info.model().funcs,
            best == max_inputs_upto(fs, memid, i as int),
        decreases info.funcs.len() - i,
    {
        let f = &info.funcs[i];
        assert(fs[i as int] == f.model());
        if f.memid == memid {
            let e = expected_inputs(f);
            if e > best {
                best = e;
            }
        }
        i = i + 1;
    }
    best
}

/// Whether the object at `instance` has a vtable in memory whose entry at
/// `offset` is a nonzero address in memory.
pub open spec fn vtable_ok(vm: &Vm, instance: u32, offset: u16) -> bool {
    let vt = u32_or0(vm, instance as int);
    let entry = u32_or0(vm, add32(vt, offset as u32) as int);
    &&& vt != 0
    &&& in_range(vm, vt as int, 1)
    &&& entry != 0
    &&& in_range(vm, entry as int, 1)
}

pub fn valid_vtable(vm: &Vm, instance: u32, offset: u16) -> (r: bool)
    ensures
        r == vtable_ok(vm, instance, offset),
{
    let vtable_ptr = vm.read_u32_or0(instance);
    if vtable_ptr == 0 || !vm.contains_addr(vtable_ptr) {
        return false;
    }
    let entry = vm.read_u32_or0(wrap_add(vtable_ptr, offset as u32));
    entry != 0 && vm.contains_addr(entry)
}

/// The vtable entry at `offset` of the object at `instance`: an error
/// where the object, its vtable or the entry cannot be read.
pub open spec fn vtable_entry_of(vm: &Vm, instance: u32, offset: u16) -> Result<u32, VmError> {
    match crate::vm::mem_u32(vm, instance as int) {
        None => Err(VmError::MemoryOutOfRange),
        Some(vt) => if !in_range(vm, vt as int, 1) {
            Err(VmError::MemoryOutOfRange)
        } else {
            match crate::vm::mem_u32(vm, add32(vt, offset as u32) as int) {
                None => Err(VmError::MemoryOutOfRange),
                Some(e) => Ok(e),
            }
        },
    }
}

pub fn vtable_entry(vm: &Vm, instance: u32, offset: u16) -> (r: Result<u32, VmError>)
    ensures
        r == vtable_entry_of(vm, instance, offset),
{
    let vtable_ptr = vm.read_u32(instance)?;
    if !vm.contains_addr(vtable_ptr) {
        return Err(VmError::MemoryOutOfRange);
    }
    vm.read_u32(wrap_add(vtable_ptr, offset as u32))
}

/// How many code bytes from an entry point are looked at.
pub const CODE_WINDOW: usize = 160;

/// The code bytes from an entry point, unreadable ones as 0.
pub open spec fn code_at(vm: &Vm, entry: u32) -> Seq<u8> {
    Seq::new(CODE_WINDOW as nat, |i: int| u8_or0(vm, add32(entry, i as u32) as int))
}

/// `mov eax, [esp+4]` or `push dword [esp+4]` at `i`: the routine takes its
/// first argument from the stack.
pub open spec fn reads_stack_arg(c: Seq<u8>, i: int) -> bool {
    ((c[i] == 0x8B && c[i + 1] == 0x44) || (c[i] == 0xFF && c[i + 1] == 0x74)) && c[i + 2] == 0x24
        && c[i + 3] == 0x04
}

/// An instruction at `i` that reads `[ebp+8]`, the first argument of a
/// routine with a frame: `mov` into eax, esi, ecx, edx, ebx or edi, `push`
/// or `lea eax`.
pub open spec fn reads_frame_arg(c: Seq<u8>, i: int) -> bool {
    &&& c[i + 2] == 0x08
    &&& {
        ||| c[i] == 0x8B && (c[i + 1] == 0x45 || c[i + 1] == 0x75 || c[i + 1] == 0x4D || c[i + 1] == 0x55
            || c[i + 1] == 0x5D || c[i + 1] == 0x7D)
        ||| c[i] == 0xFF && c[i + 1] == 0x75
        ||| c[i] == 0x8D && c[i + 1] == 0x45
    }
}

/// A `mov` or `lea` at `i` with a memory operand based on ECX.
pub open spec fn uses_ecx(c: Seq<u8>, i: int) -> bool {
    &&& (c[i] == 0x8B || c[i] == 0x89 || c[i] == 0x8A || c[i] == 0x8D)
    &&& c[i + 1] / 64 != 3
    &&& c[i + 1] % 8 == 1
}

/// Whether code looks like a thiscall routine: it does not take its first
/// argument from the stack, and uses memory through ECX.
pub open spec fn looks_thiscall(c: Seq<u8>) -> bool {
    if exists|i: int| 0 <= i < c.len() - 3 && #[trigger] reads_stack_arg(c, i) {
        false
    } else if exists|i: int| 0 <= i < c.len() - 2 && #[trigger] reads_frame_arg(c, i) {
        false
    } else {
        exists|i: int| 0 <= i < c.len() - 1 && #[trigger] uses_ecx(c, i)
    }
}

/// Whether the routine at `entry` looks like a thiscall one.
pub fn detect_thiscall(vm: &Vm, entry: u32) -> (r: bool)
    ensures
        r == looks_thiscall(code_at(vm, entry)),
{
    let mut bytes: Vec<u8> = Vec::new();
    let mut k: usize = 0;
    while k < CODE_WINDOW
        invariant
            k <= CODE_WINDOW,
            bytes@ == code_at(vm, entry).take(k as int),
        decreases CODE_WINDOW - k,
    {
        let v = match vm.read_u8(wrap_add(entry, k as u32)) {
            Ok(v) => v,
            Err(_) => 0,
        };
        bytes.push(v);
        k = k + 1;
        assert(bytes@ =~= code_at(vm, entry).take(k as int));
    }
    let ghost c = code_at(vm, entry);
    assert(bytes@ =~= c);
    let n = bytes.len();
    let mut i: usize = 0;
    while i < n - 3
        invariant
            n == CODE_WINDOW,
            c == code_at(vm, entry),
            bytes@ == c,
            c.len() == n,
            i <= n - 3,
            forall|j: int| 0 <= j < i ==> !#[trigger] reads_stack_arg(c, j),
        decreases n - 3 - i,
    {
        if (bytes[i] == 0x8B && bytes[i + 1] == 0x44 || bytes[i] == 0xFF && bytes[i + 1] == 0x74)
            && bytes[i + 2] == 0x24 && bytes[i + 3] == 0x04 {
            assert(reads_stack_arg(c, i as int));
            assert(exists|j: int| 0 <= j < c.len() - 3 && #[trigger] reads_stack_arg(c, j));
            assert(!looks_thiscall(c));
            return false;
        }
        i = i + 1;
    }
    let mut i: usize = 0;
    while i < n - 2
        invariant
            n == CODE_WINDOW,
            c == code_at(vm, entry),
            bytes@ == c,
            c.len() == n,
            i <= n - 2,
            !exists|j: int| 0 <= j < c.len() - 3 && #[trigger] reads_stack_arg(c, j),
            forall|j: int| 0 <= j < i ==> !#[trigger] reads_frame_arg(c, j),
        decreases n - 2 - i,
    {
        let op = bytes[i];
        let m = bytes[i + 1];
        if bytes[i + 2] == 0x08 && (op == 0x8B && (m == 0x45 || m == 0x75 || m == 0x4D || m == 0x55 || m == 0x5D
            || m == 0x7D) || op == 0xFF && m == 0x75 || op == 0x8D && m == 0x45) {
            assert(reads_frame_arg(c, i as int));
            assert(exists|j: int| 0 <= j < c.len() - 2 && #[trigger] reads_frame_arg(c, j));
            assert(!looks_thiscall(c));
            return false;
        }
        i = i + 1;
    }
    let mut i: usize = 0;
    while i < n - 1
        invariant
            n == CODE_WINDOW,
            c == code_at(vm, entry),
            bytes@ == c,
            c.len() == n,
            i <= n - 1,
            !exists|j: int| 0 <= j < c.len() - 3 && #[trigger] reads_stack_arg(c, j),
            !exists|j: int| 0 <= j < c.len() - 2 && #[trigger] reads_frame_arg(c, j),
            forall|j: int| 0 <= j < i ==> !#[trigger] uses_ecx(c, j),
        decreases n - 1 - i,
    {
        let op = bytes[i];
        if op == 0x8B || op == 0x89 || op == 0x8A || op == 0x8D {
            let modrm = bytes[i + 1];
            if modrm / 64 != 3 && modrm % 8 == 1 {
                assert(uses_ecx(c, i as int));
                assert(exists|j: int| 0 <= j < c.len() - 1 && #[trigger] uses_ecx(c, j));
                assert(looks_thiscall(c));
                return true;
            }
        }
        i = i + 1;
    }
    false
}

/// The base type of a variant type: without the by-reference and array bits.
pub open spec fn base_vt(vt: u16) -> u16 {
    vt & !(VT_BYREF | VT_ARRAY)
}

/// Whether a base type is passed as a 32-bit integer.
pub open spec fn int_like(b: u16) -> bool {
    b == VT_I4 || b == VT_UI4 || b == VT_INT || b == VT_UINT || b == VT_USERDEFINED || b == VT_NULL
}

/// The 32-bit value that the VARIANT at `var_ptr` gives a parameter of type
/// `expected`: arrays and references are passed as they are, a reference
/// given for a value is followed (for integers and BSTRs), integers go to
/// integers and BSTRs to BSTRs; anything else is an error.
pub open spec fn variant_arg(vm: &Vm, var_ptr: u32, expected: u16) -> Result<u32, VmError> {
    if var_ptr == 0 {
        Err(VmError::InvalidConfig("variant pointer is null"))
    } else {
        match (mem_u16(vm, var_ptr as int), mem_u32(vm, add32(var_ptr, 8) as int)) {
            (Some(actual), Some(value)) => {
                let eb = base_vt(expected);
                let ab = base_vt(actual);
                if expected & VT_ARRAY != 0 {
                    if actual & VT_ARRAY == 0 {
                        Err(VmError::InvalidConfig("expected array variant"))
                    } else {
                        Ok(value)
                    }
                } else if expected & VT_BYREF != 0 {
                    if actual & VT_BYREF == 0 {
                        Err(VmError::InvalidConfig("expected byref variant"))
                    } else {
                        Ok(value)
                    }
                } else if actual & VT_BYREF != 0 {
                    if value == 0 {
                        Err(VmError::InvalidConfig("null byref pointer"))
                    } else if (int_like(ab) && ab != VT_NULL) || ab == VT_BSTR {
                        match mem_u32(vm, value as int) {
                            Some(v) => Ok(v),
                            None => Err(VmError::MemoryOutOfRange),
                        }
                    } else {
                        Err(VmError::InvalidConfig("unsupported byref variant"))
                    }
                } else if int_like(eb) && int_like(ab) {
                    Ok(value)
                } else if eb == VT_BSTR && ab == VT_BSTR {
                    Ok(value)
                } else {
                    Err(VmError::InvalidConfig("variant type mismatch"))
                }
            },
            _ => Err(VmError::MemoryOutOfRange),
        }
    }
}

pub fn read_variant_arg(vm: &Vm, var_ptr: u32, expected_vt: u16) -> (r: Result<u32, VmError>)
    ensures
        r == variant_arg(vm, var_ptr, expected_vt),
{
    if var_ptr == 0 {
        return Err(VmError::InvalidConfig("variant pointer is null"));
    }
    let actual_vt = vm.read_u16(var_ptr)?;
    let value = vm.read_u32(wrap_add(var_ptr, 8))?;
    let expected_base = expected_vt & !(VT_BYREF | VT_ARRAY);
    let actual_base = actual_vt & !(VT_BYREF | VT_ARRAY);
    if expected_vt & VT_ARRAY != 0 {
        if actual_vt & VT_ARRAY == 0 {
            return Err(VmError::InvalidConfig("expected array variant"));
        }
        return Ok(value);
    }
    if expected_vt & VT_BYREF != 0 {
        if actual_vt & VT_BYREF == 0 {
            return Err(VmError::InvalidConfig("expected byref variant"));
        }
        return Ok(value);
    }
    if actual_vt & VT_BYREF != 0 {
        if value == 0 {
            return Err(VmError::InvalidConfig("null byref pointer"));
        }
        if actual_base == VT_I4 || actual_base == VT_UI4 || actual_base == VT_INT || actual_base == VT_UINT
            || actual_base == VT_USERDEFINED || actual_base == VT_BSTR {
            return vm.read_u32(value);
        }
        return Err(VmError::InvalidConfig("unsupported byref variant"));
    }
    let expected_int = expected_base == VT_I4 || expected_base == VT_UI4 || expected_base == VT_INT
        || expected_base == VT_UINT || expected_base == VT_USERDEFINED || expected_base == VT_NULL;
    let actual_int = actual_base == VT_I4 || actual_base == VT_UI4 || actual_base == VT_INT
        || actual_base == VT_UINT || actual_base == VT_USERDEFINED || actual_base == VT_NULL;
    if expected_int && actual_int {
        return Ok(value);
    }
    if expected_base == VT_BSTR && actual_base == VT_BSTR {
        return Ok(value);
    }
    Err(VmError::InvalidConfig("variant type mismatch"))
}

/// Whether flags mark a parameter as out and not in.
pub open spec fn out_only(flags: u32) -> bool {
    flags & PARAMFLAG_FOUT != 0 && flags & PARAMFLAG_FIN == 0
}

pub fn is_out_only(flags: u32) -> (r: bool)
    ensures
        r == out_only(flags),
{
    flags & PARAMFLAG_FOUT != 0 && flags & PARAMFLAG_FIN == 0
}

/// Whether a parameter only receives a value: out and not in; or out, not
/// by reference, and an array or of a type that is filled in place (a
/// record, VARIANT, BSTR or null).
pub open spec fn out_param(vt: u16, flags: u32) -> bool {
    if out_only(flags) {
        true
    } else if flags & PARAMFLAG_FOUT == 0 || vt & VT_BYREF != 0 {
        false
    } else {
        let b = base_vt(vt);
        b == VT_USERDEFINED || b == VT_VARIANT || b == VT_BSTR || b == VT_NULL || vt & VT_ARRAY != 0
    }
}

pub fn is_out_param(vt: u16, flags: u32) -> (r: bool)
    ensures
        r == out_param(vt, flags),
{
    if is_out_only(flags) {
        return true;
    }
    if flags & PARAMFLAG_FOUT == 0 || vt & VT_BYREF != 0 {
        return false;
    }
    let base = vt & !(VT_BYREF | VT_ARRAY);
    base == VT_USERDEFINED || base == VT_VARIANT || base == VT_BSTR || base == VT_NULL || vt & VT_ARRAY != 0
}

/// The size of the buffer that receives a value of type `vt`: a VARIANT for
/// records and VARIANTs (not in arrays), else 32 bits.
pub open spec fn out_size(vt: u16) -> u32 {
    if vt & VT_ARRAY == 0 && (base_vt(vt) == VT_VARIANT || base_vt(vt) == VT_USERDEFINED) {
        VARIANT_SIZE as u32
    } else {
        4
    }
}

fn buffer_size(vt: u16) -> (r: u32)
    ensures
        r == out_size(vt),
{
    if vt & VT_ARRAY != 0 {
        return 4;
    }
    let base = vt & !(VT_BYREF | VT_ARRAY);
    if base == VT_VARIANT || base == VT_USERDEFINED {
        VARIANT_SIZE as u32
    } else {
        4
    }
}

/// `n` zero bytes.
pub open spec fn zero_bytes(n: nat) -> Seq<u8> {
    Seq::new(n, |i: int| 0u8)
}

/// Allocates `n` zeroed bytes aligned to 4.
pub fn alloc_zeroed(vm: &mut Vm, n: u32) -> (r: Result<u32, VmError>)
    ensures
        same_but_heap(old(vm), final(vm)),
        match r {
            Ok(p) => alloc_at(old(vm), n as int, 4) == Some(p as int)
                && allocated(old(vm), final(vm), p as int, zero_bytes(n as nat)),
            Err(_) => alloc_at(old(vm), n as int, 4) is None && final(vm).memory@ == old(vm).memory@
                && final(vm).heap_cursor == old(vm).heap_cursor,
        },
{
    if n > vm.heap_end {
        proof {
            let p = crate::vm::block_at(old(vm), 4);
            assert(p + n > old(vm).heap_end);
        }
        return Err(VmError::OutOfMemory);
    }
    let mut zeros: Vec<u8> = Vec::new();
    let mut i: u32 = 0;
    while i < n
        invariant
            i <= n,
            zeros@ == zero_bytes(i as nat),
        decreases n - i,
    {
        zeros.push(0);
        i = i + 1;
        assert(zeros@ =~= zero_bytes(i as nat));
    }
    vm.alloc_bytes(zeros.as_slice(), 4)
}

/// A buffer for an out-parameter of type `vt`.
pub fn alloc_out_arg(vm: &mut Vm, vt: u16) -> (r: Result<u32, VmError>)
    ensures
        same_but_heap(old(vm), final(vm)),
        match r {
            Ok(p) => alloc_at(old(vm), out_size(vt) as int, 4) == Some(p as int)
                && allocated(old(vm), final(vm), p as int, zero_bytes(out_size(vt) as nat)),
            Err(_) => alloc_at(old(vm), out_size(vt) as int, 4) is None && final(vm).memory@ == old(vm).memory@
                && final(vm).heap_cursor == old(vm).heap_cursor,
        },
{
    let n = buffer_size(vt);
    alloc_zeroed(vm, n)
}

/// What a parameter of type `vt` that the caller did not give gets: a
/// zeroed buffer for arrays, references, records and VARIANTs (`Some` of
/// its size), else 0 (`None`).
pub open spec fn default_buffer(vt: u16) -> Option<u32> {
    if vt & VT_ARRAY != 0 || vt & VT_BYREF != 0 || base_vt(vt) == VT_USERDEFINED || base_vt(vt) == VT_VARIANT {
        Some(out_size(vt))
    } else {
        None
    }
}

pub fn default_arg_for_vt(vm: &mut Vm, vt: u16) -> (r: Result<u32, VmError>)
    ensures
        same_but_heap(old(vm), final(vm)),
        match default_buffer(vt) {
            None => r == Ok::<u32, VmError>(0) && *final(vm) == *old(vm),
            Some(n) => match r {
                Ok(p) => alloc_at(old(vm), n as int, 4) == Some(p as int)
                    && allocated(old(vm), final(vm), p as int, zero_bytes(n as nat)),
                Err(_) => alloc_at(old(vm), n as int, 4) is None && final(vm).memory@ == old(vm).memory@
                    && final(vm).heap_cursor == old(vm).heap_cursor,
            },
        },
{
    if vt & VT_ARRAY != 0 {
        return alloc_out_arg(vm, vt);
    }
    let base = vt & !(VT_BYREF | VT_ARRAY);
    if vt & VT_BYREF == 0 && base != VT_USERDEFINED && base != VT_VARIANT {
        return Ok(0);
    }
    alloc_out_arg(vm, vt)
}

/// The type a returned value is reported with: records and null as 32-bit
/// integers, references as what they refer to.
pub open spec fn retval_vt(vt: u16) -> u16 {
    let b = vt & !VT_BYREF;
    if b == VT_USERDEFINED || b == VT_NULL {
        VT_I4
    } else {
        b
    }
}

pub fn normalize_retval_vt(vt: u16) -> (r: u16)
    ensures
        r == retval_vt(vt),
{
    let base = vt & !VT_BYREF;
    if base == VT_USERDEFINED || base == VT_NULL {
        return VT_I4;
    }
    base
}

/// The value left in a return-value buffer, with its reported type.
pub fn read_retval_value(vm: &Vm, ptr: u32, vt: u16) -> (r: Result<(u16, u32), VmError>)
    ensures
        r == (if ptr == 0 {
            Err(VmError::InvalidConfig("retval pointer is null"))
        } else {
            match mem_u32(vm, ptr as int) {
                Some(v) => Ok((retval_vt(vt), v)),
                None => Err(VmError::MemoryOutOfRange),
            }
        }),
{
    if ptr == 0 {
        return Err(VmError::InvalidConfig("retval pointer is null"));
    }
    let value = vm.read_u32(ptr)?;
    Ok((normalize_retval_vt(vt), value))
}

/// Whether a value of the base type `b` is stored in a VARIANT as 32 bits.
pub open spec fn stores_as_u32(b: u16) -> bool {
    b == VT_I4 || b == VT_UI4 || b == VT_INT || b == VT_UINT || b == VT_UI1 || b == VT_BSTR || b == VT_NULL
}

/// The VARIANT type that a value of type `vt` is stored with, where it can
/// be stored: arrays as they are, 32-bit types without the reference bit.
pub open spec fn stored_vt(vt: u16) -> Option<u16> {
    if vt & VT_ARRAY != 0 {
        Some(vt)
    } else if stores_as_u32(vt & !VT_BYREF) {
        Some(vt & !VT_BYREF)
    } else {
        None
    }
}

/// Stores a value in the VARIANT at `dest`; an error, with nothing
/// written, for a type that cannot be stored.
pub fn write_variant_value(vm: &mut Vm, dest: u32, vt: u16, value: u32) -> (r: Result<(), VmError>)
    ensures
        same_but_memory(old(vm), final(vm)),
        match stored_vt(vt) {
            None => r == Err::<(), VmError>(VmError::InvalidConfig("unsupported variant type"))
                && final(vm).memory@ == old(vm).memory@,
            Some(t) => {
                let (ok, m) = apply_writes(old(vm).base, old(vm).memory@, variant_u32_parts(dest, t, value));
                &&& final(vm).memory@ == m
                &&& (r is Ok <==> ok)
            },
        },
{
    if vt & VT_ARRAY != 0 {
        return write_variant_u32(vm, dest, vt, value);
    }
    let base_vt = vt & !VT_BYREF;
    if base_vt == VT_I4 || base_vt == VT_UI4 || base_vt == VT_INT || base_vt == VT_UINT || base_vt == VT_UI1
        || base_vt == VT_BSTR || base_vt == VT_NULL {
        write_variant_u32(vm, dest, base_vt, value)
    } else {
        Err(VmError::InvalidConfig("unsupported variant type"))
    }
}

/// Whether a parameter takes one of the caller's inputs.
pub open spec fn is_input(p: ParamDesc) -> bool {
    !is_retval(p) && !out_param(p.vt, p.flags)
}

/// How many of the parameters take inputs.
pub open spec fn input_count(ps: Seq<ParamDesc>) -> nat
    decreases ps.len(),
{
    if ps.len() == 0 {
        0
    } else {
        input_count(ps.drop_last()) + if is_input(ps.last()) {
            1nat
        } else {
            0nat
        }
    }
}

pub proof fn lemma_input_count_le(ps: Seq<ParamDesc>)
    ensures
        input_count(ps) <= ps.len(),
    decreases ps.len(),
{
    if ps.len() > 0 {
        lemma_input_count_le(ps.drop_last());
    }
}

/// Where a parameter's value comes from.
#[derive(Debug, Clone, Copy, PartialEq, Eq)]
pub enum ArgSource {
    /// A zeroed buffer that receives a value of this type.
    Buffer(u16),
    /// What a parameter of this type gets that the caller did not give.
    Default(u16),
    /// The VARIANT at this address: the caller's argument with this index.
    Variant(u32, u32),
}

/// The VARIANT of the caller's argument with the index `ai`.
pub open spec fn variant_slot(args: u32, ai: int) -> ArgSource {
    ArgSource::Variant(add32(args, (16 * ai) as u32), ai as u32)
}

/// Where the value of parameter `i` comes from, for `n` arguments in the
/// array at `args`. Where the caller gives more arguments than there are
/// inputs (but no more than parameters), they go to the parameters by
/// position, the last argument first, and out-parameters get buffers;
/// else inputs take the arguments in turn, the last argument first, and
/// inputs left over get defaults.
pub open spec fn source(ps: Seq<ParamDesc>, i: int, n: nat, args: u32) -> ArgSource {
    let p = ps[i];
    let inputs = input_count(ps);
    if n > inputs {
        if out_param(p.vt, p.flags) {
            ArgSource::Buffer(p.vt)
        } else if i < n {
            variant_slot(args, n - 1 - i)
        } else {
            ArgSource::Buffer(p.vt)
        }
    } else if !is_input(p) {
        ArgSource::Buffer(p.vt)
    } else {
        let pos = input_count(ps.take(i));
        if pos >= n {
            ArgSource::Default(p.vt)
        } else {
            variant_slot(args, n - 1 - pos)
        }
    }
}

/// Where all parameters' values come from.
pub open spec fn sources(ps: Seq<ParamDesc>, n: nat, args: u32) -> Seq<ArgSource> {
    Seq::new(ps.len(), |i: int| source(ps, i, n, args))
}

pub fn arg_sources(func: &FuncDesc, args_ptr: u32, arg_count: u32) -> (r: Vec<ArgSource>)
    requires
        arg_count <= func.params@.len() || arg_count <= input_count(func.params@),
    ensures
        r@ == sources(func.params@, arg_count as nat, args_ptr),
{
    let ghost ps = func.params@;
    let n = func.params.len();
    let mut inputs: usize = 0;
    let mut i: usize = 0;
    while i < n
        invariant
            n == ps.len(),
            ps == func.params@,
            i <= n,
            inputs == input_count(ps.take(i as int)),
            inputs <= i,
        decreases n - i,
    {
        let p = func.params[i];
        proof {
            assert(ps.take(i + 1).drop_last() =~= ps.take(i as int));
        }
        if p.flags & PARAMFLAG_FRETVAL == 0 && !is_out_param(p.vt, p.flags) {
            inputs = inputs + 1;
        }
        i = i + 1;
    }
    assert(ps.take(n as int) =~= ps);
    let total = inputs;
    let count = arg_count as usize;
    let positional = count > total;
    let mut out: Vec<ArgSource> = Vec::new();
    let mut pos: usize = 0;
    let mut i: usize = 0;
    while i < n
        invariant
            n == ps.len(),
            ps == func.params@,
            total == input_count(ps),
            total <= n,
            count == arg_count,
            positional == (count > total),
            positional ==> count <= n,
            i <= n,
            pos == input_count(ps.take(i as int)),
            pos <= i,
            out@ == sources(ps, arg_count as nat, args_ptr).take(i as int),
        decreases n - i,
    {
        let p = func.params[i];
        let input = p.flags & PARAMFLAG_FRETVAL == 0 && !is_out_param(p.vt, p.flags);
        let s = if positional {
            if is_out_param(p.vt, p.flags) {
                ArgSource::Buffer(p.vt)
            } else if i < count {
                let ai = count - 1 - i;
                let off: u64 = (ai as u64) * 16;
                assert(off == 16 * ai);
                ArgSource::Variant(wrap_add(args_ptr, off as u32), ai as u32)
            } else {
                ArgSource::Buffer(p.vt)
            }
        } else if !input {
            ArgSource::Buffer(p.vt)
        } else if pos >= count {
            ArgSource::Default(p.vt)
        } else {
            let ai = count - 1 - pos;
            let off: u64 = (ai as u64) * 16;
            assert(off == 16 * ai);
            ArgSource::Variant(wrap_add(args_ptr, off as u32), ai as u32)
        };
        assert(s == source(ps, i as int, arg_count as nat, args_ptr));
        out.push(s);
        proof {
            assert(ps.take(i + 1).drop_last() =~= ps.take(i as int));
        }
        if input {
            pos = pos + 1;
        }
        i = i + 1;
        assert(out@ =~= sources(ps, arg_count as nat, args_ptr).take(i as int));
    }
    assert(sources(ps, arg_count as nat, args_ptr).take(n as int) =~= sources(ps, arg_count as nat, args_ptr));
    out
}

/// How many parameters take inputs.
pub fn count_inputs(func: &FuncDesc) -> (r: usize)
    ensures
        r == input_count(func.params@),
        r <= func.params@.len(),
{
    let ghost ps = func.params@;
    let mut inputs: usize = 0;
    let mut i: usize = 0;
    while i < func.params.len()
        invariant
            ps == func.params@,
            i <= ps.len(),
            inputs == input_count(ps.take(i as int)),
            inputs <= i,
        decreases func.params.len() - i,
    {
        let p = func.params[i];
        proof {
            assert(ps.take(i + 1).drop_last() =~= ps.take(i as int));
        }
        if p.flags & PARAMFLAG_FRETVAL == 0 && !is_out_param(p.vt, p.flags) {
            inputs = inputs + 1;
        }
        i = i + 1;
    }
    assert(ps.take(ps.len() as int) =~= ps);
    inputs
}

/// Whether what a parameter holds after the call is reported: the return
/// value, out-parameters, and out parameters passed by reference, as
/// arrays, or of a type filled in place.
pub open spec fn record_out(p: ParamDesc) -> bool {
    let b = p.vt & !VT_BYREF;
    ||| is_retval(p)
    ||| out_param(p.vt, p.flags)
    ||| p.flags & PARAMFLAG_FOUT != 0 && (p.vt & VT_BYREF != 0 || p.vt & VT_ARRAY != 0 || b == VT_USERDEFINED
        || b == VT_VARIANT || b == VT_BSTR)
}

fn records_out(p: ParamDesc) -> (r: bool)
    ensures
        r == record_out(p),
{
    let b = p.vt & !VT_BYREF;
    p.flags & PARAMFLAG_FRETVAL != 0 || is_out_param(p.vt, p.flags) || p.flags & PARAMFLAG_FOUT != 0 && (p.vt
        & VT_BYREF != 0 || p.vt & VT_ARRAY != 0 || b == VT_USERDEFINED || b == VT_VARIANT || b == VT_BSTR)
}

/// The out-parameters of a call whose parameters got the values `vs`.
pub open spec fn out_records(ps: Seq<ParamDesc>, vs: Seq<u32>) -> Seq<ComOutParam>
    decreases ps.len(),
{
    if ps.len() == 0 {
        Seq::empty()
    } else {
        let k = ps.len() - 1;
        let prev = out_records(ps.drop_last(), vs);
        if record_out(ps.last()) {
            prev.push(ComOutParam { index: k as usize, vt: ps.last().vt, flags: ps.last().flags, ptr: vs[k] })
        } else {
            prev
        }
    }
}

/// The first parameter marked as the return value, with its type.
pub open spec fn first_retval(ps: Seq<ParamDesc>) -> Option<(usize, u16)>
    decreases ps.len(),
{
    if ps.len() == 0 {
        None
    } else {
        match first_retval(ps.drop_last()) {
            Some(x) => Some(x),
            None => if is_retval(ps.last()) {
                Some(((ps.len() - 1) as usize, ps.last().vt))
            } else {
                None
            },
        }
    }
}

/// The size of the block a source allocates, where it allocates one.
pub open spec fn source_block(s: ArgSource) -> Option<u32> {
    match s {
        ArgSource::Buffer(vt) => Some(out_size(vt)),
        ArgSource::Default(vt) => default_buffer(vt),
        ArgSource::Variant(_, _) => None,
    }
}

/// Whether the blocks of the sources from `i` on fit in the heap of `a`,
/// one after another from `cursor`, each aligned to 4 behind its header.
pub open spec fn blocks_fit(a: &Vm, srcs: Seq<ArgSource>, i: int, cursor: int) -> bool
    decreases srcs.len() - i,
{
    if i < 0 || i >= srcs.len() {
        true
    } else {
        match source_block(srcs[i]) {
            Some(n) => {
                let p = align_up(cursor + BLOCK_HEADER, 4);
                &&& p + n <= a.heap_end
                &&& in_range(a, p - BLOCK_HEADER, n + BLOCK_HEADER)
                &&& blocks_fit(a, srcs, i + 1, p + n)
            },
            None => blocks_fit(a, srcs, i + 1, cursor),
        }
    }
}


/// Whether `v` is what a parameter of type `vt` gets from the source `s`:
/// the argument read from the VARIANT on the machine `a`, or a nonzero
/// zeroed block on `b`, or 0.
pub open spec fn value_ok(a: &Vm, b: &Vm, s: ArgSource, vt: u16, v: u32) -> bool {
    match s {
        ArgSource::Variant(vp, _) => variant_arg(a, vp, vt) == Ok::<u32, VmError>(v),
        _ => match source_block(s) {
            None => v == 0,
            Some(n) => v != 0 && holds_bytes(b, v as int, zero_bytes(n as nat)),
        },
    }
}

/// `b`'s memory is that of `a` with blocks added to the heap, and possibly
/// a 32-bit value stored at `note` (where it is nonzero).
pub open spec fn grown_or_noted(a: &Vm, b: &Vm, note: u32) -> bool {
    exists|g: Vm| {
        &&& #[trigger] heap_grown(a, &g)
        &&& b.heap_cursor == g.heap_cursor
        &&& (b.memory@ == g.memory@ || (note != 0 && exists|v: u32|
            b.memory@ == #[trigger] store(a.base, g.memory@, note as int, bytes32(v))))
    }
}

/// The values a call gets: one per parameter, the out-parameters to report
/// afterwards, and the parameter (with its type) that holds the return
/// value.
pub struct InvokeValues {
    pub values: Vec<u32>,
    pub out_params: Vec<ComOutParam>,
    pub retval_param: Option<(usize, u16)>,
}

/// An allocated block of bytes reads back where it was allocated.
pub proof fn lemma_allocated_bytes(a: &Vm, b: &Vm, p: int, image: Seq<u8>)
    requires
        alloc_at(a, image.len() as int, 4) == Some(p),
        allocated(a, b, p, image),
    ensures
        holds_bytes(b, p, image),
        p + image.len() == b.heap_cursor,
        p >= 4,
{
    let img = block_image(image);
    assert(crate::vm::mem_bytes(b, p, image.len() as int) =~= image) by {
        assert forall|k: int| 0 <= k < image.len() implies #[trigger] crate::vm::mem_bytes(b, p, image.len() as int)[k]
            == image[k] by {
            assert(img[4 + k] == image[k]);
        }
    }
}

/// Bytes below the old heap cursor stay where they are as the heap grows.
pub proof fn lemma_bytes_kept(a: &Vm, b: &Vm, addr: int, image: Seq<u8>)
    requires
        holds_bytes(a, addr, image),
        heap_grown(a, b),
        addr + image.len() <= a.heap_cursor,
    ensures
        holds_bytes(b, addr, image),
{
    let n = image.len() as int;
    assert forall|k: int| 0 <= k < n implies #[trigger] crate::vm::mem_bytes(b, addr, n)[k]
        == crate::vm::mem_bytes(a, addr, n)[k] by {
        let o = addr - a.base + k;
        assert(b.memory@[o] == a.memory@[o]);
    }
    assert(crate::vm::mem_bytes(b, addr, n) =~= crate::vm::mem_bytes(a, addr, n));
}

/// Whether reading the argument of the source `s` for a parameter of type
/// `vt` fails on `a`.
pub open spec fn read_fails(a: &Vm, s: ArgSource, vt: u16) -> bool {
    match s {
        ArgSource::Variant(vp, _) => variant_arg(a, vp, vt) is Err,
        _ => false,
    }
}

/// Whether `r` is what reading the argument of the source `s` gives.
pub open spec fn read_as(a: &Vm, s: ArgSource, vt: u16, r: Result<u32, VmError>) -> bool {
    match s {
        ArgSource::Variant(vp, _) => r == variant_arg(a, vp, vt),
        _ => true,
    }
}

/// Whether the block of a source, at `v`, ends at or below `cursor`.
pub open spec fn block_below(s: ArgSource, v: u32, cursor: u32) -> bool {
    match source_block(s) {
        Some(m) => v + m <= cursor,
        None => true,
    }
}

/// The out-parameters depend only on the values of the parameters there are.
pub proof fn lemma_out_records_same(ps: Seq<ParamDesc>, vs: Seq<u32>, ws: Seq<u32>)
    requires
        forall|k: int| 0 <= k < ps.len() ==> vs[k] == ws[k],
    ensures
        out_records(ps, vs) == out_records(ps, ws),
    decreases ps.len(),
{
    if ps.len() > 0 {
        lemma_out_records_same(ps.drop_last(), vs, ws);
    }
}

/// The value a parameter gets from its source: the argument read (`None`
/// where reading it failed), or a new zeroed block (`None` where the heap
/// is full), or 0.
fn source_value(vm: &mut Vm, s: ArgSource, read: Result<u32, VmError>) -> (r: Option<u32>)
    ensures
        match s {
            ArgSource::Variant(_, _) => *final(vm) == *old(vm) && r == (match read {
                Ok(v) => Some(v),
                Err(_) => None::<u32>,
            }),
            _ => match source_block(s) {
                None => r == Some(0u32) && *final(vm) == *old(vm),
                Some(m) => same_but_heap(old(vm), final(vm)) && match r {
                    Some(p) => p != 0 && alloc_at(old(vm), m as int, 4) == Some(p as int)
                        && holds_bytes(final(vm), p as int, zero_bytes(m as nat))
                        && p + m == final(vm).heap_cursor && heap_grown(old(vm), final(vm)),
                    None => alloc_at(old(vm), m as int, 4) is None && final(vm).memory@ == old(vm).memory@
                        && final(vm).heap_cursor == old(vm).heap_cursor,
                },
            },
        },
{
    let ghost a = *vm;
    let res = match s {
        ArgSource::Variant(_, _) => {
            return match read {
                Ok(v) => Some(v),
                Err(_) => None,
            };
        },
        ArgSource::Buffer(vt) => alloc_out_arg(vm, vt),
        ArgSource::Default(vt) => default_arg_for_vt(vm, vt),
    };
    match res {
        Ok(p) => {
            proof {
                if let Some(m) = source_block(s) {
                    lemma_allocated_bytes(&a, vm, p as int, zero_bytes(m as nat));
                    lemma_allocated_grows(&a, vm, p as int, zero_bytes(m as nat), 4);
                }
            }
            Some(p)
        },
        Err(_) => None,
    }
}

/// What the parameters before `i` got stays what they got as the heap
/// grows.
pub proof fn lemma_values_kept(
    a: &Vm,
    b: &Vm,
    c: &Vm,
    ss: Seq<ArgSource>,
    ps: Seq<ParamDesc>,
    vals: Seq<u32>,
    i: int,
)
    requires
        heap_grown(b, c),
        i <= ss.len(),
        i <= ps.len(),
        i <= vals.len(),
        forall|j: int| 0 <= j < i ==> #[trigger] value_ok(a, b, ss[j], ps[j].vt, vals[j]),
        forall|j: int| 0 <= j < i ==> #[trigger] block_below(ss[j], vals[j], b.heap_cursor),
    ensures
        forall|j: int| 0 <= j < i ==> #[trigger] value_ok(a, c, ss[j], ps[j].vt, vals[j]),
        forall|j: int| 0 <= j < i ==> #[trigger] block_below(ss[j], vals[j], c.heap_cursor),
{
    assert forall|j: int| 0 <= j < i implies #[trigger] value_ok(a, c, ss[j], ps[j].vt, vals[j]) by {
        assert(value_ok(a, b, ss[j], ps[j].vt, vals[j]));
        assert(block_below(ss[j], vals[j], b.heap_cursor));
        if !(ss[j] is Variant) {
            if let Some(m) = source_block(ss[j]) {
                lemma_bytes_kept(b, c, vals[j] as int, zero_bytes(m as nat));
            }
        }
    }
    assert forall|j: int| 0 <= j < i implies #[trigger] block_below(ss[j], vals[j], c.heap_cursor) by {
        assert(block_below(ss[j], vals[j], b.heap_cursor));
    }
}


/// The argument array and count of the DISPPARAMS at `disp`.
pub open spec fn disp_args(vm: &Vm, disp: u32) -> (u32, nat) {
    (u32_or0(vm, disp as int), u32_or0(vm, add32(disp, 8) as int) as nat)
}

/// Whether a call to `f` is given more arguments than it has parameters.
pub open spec fn too_many_args(vm: &Vm, ps: Seq<ParamDesc>, disp: u32) -> bool {
    let n = disp_args(vm, disp).1;
    n > input_count(ps) && n > ps.len()
}

/// Where the arguments of a call to `f` come from.
pub open spec fn call_sources(vm: &Vm, ps: Seq<ParamDesc>, disp: u32) -> Seq<ArgSource> {
    sources(ps, disp_args(vm, disp).1, disp_args(vm, disp).0)
}

/// `b` is `a` with the values `vals` built for a call to `f`: each what its
/// source gives, with the out-parameters `outs` and the return value
/// parameter `retval`.
#[verifier::opaque]
pub open spec fn build_ok(
    a: &Vm,
    b: &Vm,
    ps: Seq<ParamDesc>,
    disp: u32,
    vals: Seq<u32>,
    outs: Seq<ComOutParam>,
    retval: Option<(usize, u16)>,
) -> bool {
    let srcs = call_sources(a, ps, disp);
    &&& !too_many_args(a, ps, disp)
    &&& heap_grown(a, b)
    &&& vals.len() == ps.len()
    &&& forall|i: int| 0 <= i < ps.len() ==> #[trigger] value_ok(a, b, srcs[i], ps[i].vt, vals[i])
    &&& outs == out_records(ps, vals)
    &&& retval == first_retval(ps)
}

/// `b` is `a` after building the values for a call to `f` failed with
/// `code`.
#[verifier::opaque]
pub open spec fn build_err(a: &Vm, b: &Vm, ps: Seq<ParamDesc>, disp: u32, arg_err: u32, code: u32) -> bool {
    let srcs = call_sources(a, ps, disp);
    if too_many_args(a, ps, disp) {
        &&& code == DISP_E_BADPARAMCOUNT
        &&& b.heap_cursor == a.heap_cursor
        &&& b.memory@ == (if arg_err != 0 {
            store(a.base, a.memory@, arg_err as int, bytes32(disp_args(a, disp).1 as u32))
        } else {
            a.memory@
        })
    } else {
        &&& code == DISP_E_TYPEMISMATCH
        &&& grown_or_noted(a, b, arg_err)
        &&& (exists|i: int| 0 <= i < ps.len() && #[trigger] read_fails(a, srcs[i], ps[i].vt))
            || !blocks_fit(a, srcs, 0, a.heap_cursor as int)
    }
}

/// Whether building the values for a call to `f` is bound to succeed:
/// no more arguments than parameters, every argument fits, and the heap
/// has room for the buffers.
#[verifier::opaque]
pub open spec fn build_owed(a: &Vm, ps: Seq<ParamDesc>, disp: u32) -> bool {
    let srcs = call_sources(a, ps, disp);
    &&& !too_many_args(a, ps, disp)
    &&& forall|i: int| 0 <= i < ps.len() ==> !#[trigger] read_fails(a, srcs[i], ps[i].vt)
    &&& blocks_fit(a, srcs, 0, a.heap_cursor as int)
}

/// The values a call to `func` gets from the DISPPARAMS at `disp_params`
/// (the argument array, then at offset 8 the argument count). More
/// arguments than parameters: `DISP_E_BADPARAMCOUNT`, with the count stored
/// at `arg_err` where that is not null. An argument that does not fit its
/// parameter: `DISP_E_TYPEMISMATCH`, with the argument's index stored at
/// `arg_err`; so too where a buffer cannot be allocated. The VARIANTs are
/// read from memory as it is before any buffer is allocated.
pub fn build_invoke_values(vm: &mut Vm, func: &FuncDesc, disp_params: u32, arg_err: u32) -> (r: Result<InvokeValues, u32>)
    ensures
        same_but_heap(old(vm), final(vm)),
        match r {
            Ok(iv) => build_ok(old(vm), final(vm), func.params@, disp_params, iv.values@, iv.out_params@, iv.retval_param),
            Err(code) => build_err(old(vm), final(vm), func.params@, disp_params, arg_err, code),
        },
        r is Ok <==> build_owed(old(vm), func.params@, disp_params),
{
    proof {
        reveal(build_ok);
        reveal(build_err);
        reveal(build_owed);
    }
    let ghost a = *vm;
    let ghost ps = func.params@;
    let args_ptr = vm.read_u32_or0(disp_params);
    let arg_count = vm.read_u32_or0(wrap_add(disp_params, 8));
    let inputs = count_inputs(func);
    if arg_count as usize > inputs && arg_count as usize > func.params.len() {
        if arg_err != 0 {
            let _ = vm.write_u32(arg_err, arg_count);
        }
        return Err(DISP_E_BADPARAMCOUNT);
    }
    let srcs = arg_sources(func, args_ptr, arg_count);
    let ghost ss = srcs@;
    let len = func.params.len();
    let mut reads: Vec<Result<u32, VmError>> = Vec::new();
    let mut i: usize = 0;
    while i < len
        invariant
            len == ps.len(),
            ps == func.params@,
            srcs@ == ss,
            ss.len() == len,
            *vm == a,
            i <= len,
            reads@.len() == i,
            forall|j: int| 0 <= j < i ==> #[trigger] read_as(&a, ss[j], ps[j].vt, reads@[j]),
        decreases len - i,
    {
        let v = match srcs[i] {
            ArgSource::Variant(vp, _) => read_variant_arg(vm, vp, func.params[i].vt),
            _ => Ok(0),
        };
        reads.push(v);
        i = i + 1;
    }
    let mut values: Vec<u32> = Vec::new();
    let mut outs: Vec<ComOutParam> = Vec::new();
    let mut retval: Option<(usize, u16)> = None;
    let mut i: usize = 0;
    proof {
        assert(ps.take(0) =~= Seq::<ParamDesc>::empty());
    }
    while i < len
        invariant
            len == ps.len(),
            ps == func.params@,
            srcs@ == ss,
            ss.len() == len,
            ss == sources(ps, arg_count as nat, args_ptr),
            a == *old(vm),
            arg_count == u32_or0(&a, add32(disp_params, 8) as int),
            args_ptr == u32_or0(&a, disp_params as int),
            !(arg_count > input_count(ps) && arg_count > ps.len()),
            reads@.len() == len,
            forall|j: int| 0 <= j < len ==> #[trigger] read_as(&a, ss[j], ps[j].vt, reads@[j]),
            forall|j: int| 0 <= j < i ==> !#[trigger] read_fails(&a, ss[j], ps[j].vt),
            i <= len,
            values@.len() == i,
            heap_grown(&a, vm),
            same_but_heap(&a, vm),
            forall|j: int| 0 <= j < i ==> #[trigger] value_ok(&a, vm, ss[j], ps[j].vt, values@[j]),
            forall|j: int| 0 <= j < i ==> #[trigger] block_below(ss[j], values@[j], vm.heap_cursor),
            outs@ == out_records(ps.take(i as int), values@),
            retval == first_retval(ps.take(i as int)),
            blocks_fit(&a, ss, 0, a.heap_cursor as int) == blocks_fit(&a, ss, i as int, vm.heap_cursor as int),
        decreases len - i,
    {
        let ghost before = *vm;
        let p = func.params[i];
        let s = srcs[i];
        proof {
            reveal(build_ok);
            reveal(build_err);
            reveal(build_owed);
            assert(read_as(&a, ss[i as int], ps[i as int].vt, reads@[i as int]));
        }
        let v = match source_value(vm, s, reads[i]) {
            Some(v) => v,
            None => {
                if let ArgSource::Variant(_, ai) = s {
                    if arg_err != 0 {
                        let _ = vm.write_u32(arg_err, ai);
                    }
                    proof {
                        assert(read_fails(&a, ss[i as int], ps[i as int].vt));
                        if arg_err != 0 {
                            assert(vm.memory@ == store(a.base, before.memory@, arg_err as int, bytes32(ai)));
                        }
                        assert(heap_grown(&a, &before));
                        assert(grown_or_noted(&a, vm, arg_err));
                    }
                } else {
                    proof {
                        assert(!blocks_fit(&a, ss, i as int, before.heap_cursor as int));
                        assert(heap_grown(&a, &before));
                        assert(same_but_memory(&before, vm));
                        assert(grown_or_noted(&a, vm, arg_err));
                    }
                }
                return Err(DISP_E_TYPEMISMATCH);
            },
        };
        proof {
            if source_block(s) is Some && !(s is Variant) {
                let m = source_block(s).unwrap();
                lemma_heap_grown_trans(&a, &before, vm);
                lemma_values_kept(&a, &before, vm, ss, ps, values@, i as int);
                assert(blocks_fit(&a, ss, i as int, before.heap_cursor as int)
                    == blocks_fit(&a, ss, i + 1, vm.heap_cursor as int));
            } else {
                assert(*vm == before);
                assert(blocks_fit(&a, ss, i as int, before.heap_cursor as int)
                    == blocks_fit(&a, ss, i + 1, vm.heap_cursor as int));
            }
            assert(!read_fails(&a, ss[i as int], ps[i as int].vt));
            assert(value_ok(&a, vm, ss[i as int], ps[i as int].vt, v));
            assert(block_below(ss[i as int], v, vm.heap_cursor));
        }
        let ghost vals0 = values@;
        values.push(v);
        proof {
            assert forall|j: int| 0 <= j < i + 1 implies #[trigger] value_ok(&a, vm, ss[j], ps[j].vt, values@[j]) by {
                if j < i {
                    assert(values@[j] == vals0[j]);
                }
            }
            assert forall|j: int| 0 <= j < i + 1 implies #[trigger] block_below(ss[j], values@[j], vm.heap_cursor) by {
                if j < i {
                    assert(values@[j] == vals0[j]);
                }
            }
        }
        if records_out(p) {
            outs.push(ComOutParam { index: i, vt: p.vt, flags: p.flags, ptr: v });
        }
        if p.flags & PARAMFLAG_FRETVAL != 0 && retval.is_none() {
            retval = Some((i, p.vt));
        }
        proof {
            let t = ps.take(i + 1);
            assert(t.drop_last() =~= ps.take(i as int));
            assert(t.last() == p);
            lemma_out_records_same(ps.take(i as int), vals0, values@);
        }
        i = i + 1;
    }
    assert(ps.take(len as int) =~= ps);
    Ok(InvokeValues { values, out_params: outs, retval_param: retval })
}

/// A copy of a function description.
pub fn copy_func(f: &FuncDesc) -> (r: FuncDesc)
    ensures
        r.model() == f.model(),
        r.params@ == f.params@,
        r.ret_vt == f.ret_vt,
        r.vtable_offset == f.vtable_offset,
{
    let mut params: Vec<ParamDesc> = Vec::new();
    let mut i: usize = 0;
    while i < f.params.len()
        invariant
            i <= f.params@.len(),
            params@ == f.params@.take(i as int),
        decreases f.params.len() - i,
    {
        params.push(f.params[i]);
        i = i + 1;
        assert(params@ =~= f.params@.take(i as int));
    }
    assert(f.params@.take(f.params@.len() as int) =~= f.params@);
    FuncDesc {
        memid: f.memid,
        invkind: f.invkind,
        callconv: f.callconv,
        vtable_offset: f.vtable_offset,
        ret_vt: f.ret_vt,
        params,
    }
}

/// A call that `ITypeInfo::Invoke` makes into guest code, and what it
/// needs afterwards.
pub struct InvokeCall {
    /// The routine: the function's vtable entry.
    pub entry: u32,
    /// The object the routine is called on.
    pub instance: u32,
    /// Whether the routine takes the object in ECX (else as its first stack
    /// argument).
    pub thiscall: bool,
    /// The arguments after the object.
    pub args: Vec<u32>,
    pub out_params: Vec<ComOutParam>,
    pub retval_param: Option<(usize, u16)>,
    pub ret_vt: u16,
    pub result_ptr: u32,
    pub arg_err: u32,
}

/// What `ITypeInfo::Invoke` does next: return a code, or make a call.
pub enum InvokeStep {
    Done(u32),
    Call(InvokeCall),
}

/// The type info of an `Invoke` call, the arguments in the layout it uses,
/// and whether it is a thiscall.
pub open spec fn invoke_setup(vm: &Vm, sp: u32) -> Option<(TypeInfoData, InvokeArgs, bool)> {
    match typeinfo_call(vm, sp) {
        None => None,
        Some((_, id, thiscall)) => {
            let info = vm.com.typeinfo_of(id).unwrap();
            Some((info, chosen_layout(info.funcs@, layouts(stack_slots(vm, sp), if thiscall { 1 } else { 2 })), thiscall))
        },
    }
}

/// The argument count a function is looked up with: the DISPPARAMS count
/// (0 without DISPPARAMS), at most the most inputs a function with the
/// member id takes.
pub open spec fn lookup_count(vm: &Vm, info: TypeInfoData, sel: InvokeArgs) -> nat {
    let n = if sel.disp_params == 0 {
        0
    } else {
        u32_or0(vm, add32(sel.disp_params, 8) as int) as nat
    };
    let m = max_inputs_upto(info.model().funcs, sel.memid, info.funcs@.len() as int);
    if n > m {
        m
    } else {
        n
    }
}

/// The object and the DISPPARAMS of a call: swapped where the object has
/// no usable vtable but the DISPPARAMS pointer does.
pub open spec fn call_pair(vm: &Vm, sel: InvokeArgs, off: u16) -> (u32, u32) {
    if !vtable_ok(vm, sel.instance, off) && vtable_ok(vm, sel.disp_params, off) {
        (sel.disp_params, sel.instance)
    } else {
        (sel.instance, sel.disp_params)
    }
}

/// The object a call goes to: the given one where its vtable is usable,
/// else the dispatch object where that one's is.
pub open spec fn target_instance(vm: &Vm, inst: u32, off: u16) -> u32 {
    if vtable_ok(vm, inst, off) {
        inst
    } else {
        match vm.com.dispatch_instance {
            Some(d) => if vtable_ok(vm, d, off) {
                d
            } else {
                inst
            },
            None => inst,
        }
    }
}

/// Everything of the machine's automation state but the out-parameters of
/// the last call is as it was.
pub open spec fn com_same_but_outs(a: &Vm, b: &Vm) -> bool {
    &&& a.com.next_id == b.com.next_id
    &&& a.com.typelibs@ == b.com.typelibs@
    &&& a.com.typeinfos@ == b.com.typeinfos@
    &&& a.com.dispatch_instance == b.com.dispatch_instance
}

/// The machine's bounds, system, registry, registers and imports are as
/// they were.
pub open spec fn same_setup(a: &Vm, b: &Vm) -> bool {
    &&& a.base == b.base
    &&& a.stack_top == b.stack_top
    &&& a.heap_start == b.heap_start
    &&& a.heap_end == b.heap_end
    &&& a.os == b.os
    &&& a.registry == b.registry
    &&& a.imports == b.imports
    &&& a.ecx == b.ecx
}

/// The object a call goes to, its vtable entry, and whether the routine
/// there looks like a thiscall one; `None` where no usable vtable is found.
pub fn resolve_target(vm: &Vm, instance: u32, off: u16) -> (r: Option<(u32, u32, bool)>)
    ensures
        match r {
            None => !vtable_ok(vm, target_instance(vm, instance, off), off),
            Some((t, e, th)) => {
                &&& t == target_instance(vm, instance, off)
                &&& vtable_ok(vm, t, off)
                &&& e == u32_or0(vm, add32(u32_or0(vm, t as int), off as u32) as int)
                &&& th == looks_thiscall(code_at(vm, e))
            },
        },
{
    let mut instance_ptr = instance;
    if !valid_vtable(vm, instance_ptr, off) {
        if let Some(dispatch) = vm.com.dispatch_instance {
            if valid_vtable(vm, dispatch, off) {
                instance_ptr = dispatch;
            }
        }
    }
    if !valid_vtable(vm, instance_ptr, off) {
        return None;
    }
    let entry = match vtable_entry(vm, instance_ptr, off) {
        Ok(e) => e,
        Err(_) => {
            let fallback = vm.ecx;
            if fallback != 0 && fallback != instance_ptr {
                instance_ptr = fallback;
                match vtable_entry(vm, instance_ptr, off) {
                    Ok(e) => e,
                    Err(_) => 0,
                }
            } else {
                0
            }
        },
    };
    if entry == 0 {
        return None;
    }
    Some((instance_ptr, entry, detect_thiscall(vm, entry)))
}

/// The layout of an `Invoke` call's arguments, and a copy of the function
/// meant, where there is one.
fn select_call(vm: &Vm, info: &TypeInfoData, slots: &[u32; 9], thiscall: bool) -> (r: (InvokeArgs, Option<FuncDesc>))
    ensures
        r.0 == chosen_layout(info.funcs@, layouts(slots@, if thiscall { 1 } else { 2 })),
        match invoke_func(*info, r.0.memid, r.0.flags, lookup_count(vm, *info, r.0)) {
            None => r.1 is None,
            Some(fi) => r.1 matches Some(f) && f.params@ == info.funcs@[fi].params@
                && f.ret_vt == info.funcs@[fi].ret_vt && f.vtable_offset == info.funcs@[fi].vtable_offset,
        },
{
    let sel = select_invoke_args(info, slots, thiscall);
    let mut arg_count: usize = if sel.disp_params == 0 {
        0
    } else {
        vm.read_u32_or0(wrap_add(sel.disp_params, 8)) as usize
    };
    let max_expected = max_expected_inputs(info, sel.memid);
    if arg_count > max_expected {
        arg_count = max_expected;
    }
    assert(arg_count as nat == lookup_count(vm, *info, sel));
    let found = select_invoke_func(info, sel.memid, sel.flags, arg_count);
    proof {
        let fs = info.model().funcs;
        lemma_best_upto_range(fs, sel.memid, sel.flags, true, arg_count as nat, fs.len() as int);
        lemma_best_upto_range(fs, sel.memid, sel.flags, false, arg_count as nat, fs.len() as int);
    }
    match found {
        Some(fi) => {
            let f = copy_func(&info.funcs[fi]);
            assert(invoke_func(*info, sel.memid, sel.flags, lookup_count(vm, *info, sel)) == Some(fi as int));
            (sel, Some(f))
        },
        None => (sel, None),
    }
}

/// Whether two machines have the same memory, bounds and heap cursor.
pub open spec fn same_memory(a: &Vm, b: &Vm) -> bool {
    &&& a.base == b.base
    &&& a.stack_top == b.stack_top
    &&& a.heap_start == b.heap_start
    &&& a.heap_end == b.heap_end
    &&& a.heap_cursor == b.heap_cursor
    &&& a.memory@ == b.memory@
}

/// What `b` and `r` are after preparing, on `a`, the call of a function with
/// the parameters `ps`, vtable offset `off` and return type `ret_vt`, with
/// the arguments in the layout `sel`: the builder failed (`r` is its code),
/// or no usable vtable was found (`E_NOTIMPL`), or `r` is the call of the
/// vtable entry of the object found, with the values built.
pub open spec fn call_prepared(
    a: &Vm,
    b: &Vm,
    ps: Seq<ParamDesc>,
    off: u16,
    ret_vt: u16,
    sel: InvokeArgs,
    r: InvokeStep,
) -> bool {
    let (inst, disp) = call_pair(a, sel, off);
    let target = target_instance(b, inst, off);
    &&& match r {
        InvokeStep::Done(code) => build_err(a, b, ps, disp, sel.arg_err, code) || (code == E_NOTIMPL
            && !vtable_ok(b, target, off) && exists|vals: Seq<u32>, outs: Seq<ComOutParam>, rv: Option<(usize, u16)>|
            #[trigger] build_ok(a, b, ps, disp, vals, outs, rv)),
        InvokeStep::Call(c) => {
            &&& build_ok(a, b, ps, disp, c.args@, c.out_params@, c.retval_param)
            &&& vtable_ok(b, target, off)
            &&& c.instance == target
            &&& c.entry == u32_or0(b, add32(u32_or0(b, target as int), off as u32) as int)
            &&& c.thiscall == looks_thiscall(code_at(b, c.entry))
            &&& c.ret_vt == ret_vt
            &&& c.result_ptr == sel.result_ptr
            &&& c.arg_err == sel.arg_err
        },
    }
    &&& r is Call <==> (build_owed(a, ps, disp) && vtable_ok(b, target, off))
}

/// The call of a function with the arguments in the layout `sel`: swaps
/// the object and DISPPARAMS where only the latter has a usable vtable,
/// builds the values, and finds the object and entry to call.
fn prepare_call(vm: &mut Vm, func: FuncDesc, sel: InvokeArgs) -> (r: InvokeStep)
    ensures
        same_setup(old(vm), final(vm)),
        final(vm).com == old(vm).com,
        call_prepared(old(vm), final(vm), func.params@, func.vtable_offset, func.ret_vt, sel, r),
{
    let off = func.vtable_offset;
    let mut instance = sel.instance;
    let mut disp_params = sel.disp_params;
    if !valid_vtable(vm, instance, off) && valid_vtable(vm, disp_params, off) {
        instance = sel.disp_params;
        disp_params = sel.instance;
    }
    let values = match build_invoke_values(vm, &func, disp_params, sel.arg_err) {
        Ok(v) => v,
        Err(code) => return InvokeStep::Done(code),
    };
    let (instance_ptr, entry, thiscall_entry) = match resolve_target(vm, instance, off) {
        Some(t) => t,
        None => return InvokeStep::Done(E_NOTIMPL),
    };
    InvokeStep::Call(InvokeCall {
        entry,
        instance: instance_ptr,
        thiscall: thiscall_entry,
        args: values.values,
        out_params: values.out_params,
        retval_param: values.retval_param,
        ret_vt: func.ret_vt,
        result_ptr: sel.result_ptr,
        arg_err: sel.arg_err,
    })
}

/// `ITypeInfo::Invoke` up to the call: finds the type info and the layout
/// of the arguments, the function meant (`DISP_E_MEMBERNOTFOUND` where
/// there is none), builds its arguments (failing as the builder does), and
/// finds the object and vtable entry to call (`E_NOTIMPL` where there is no
/// usable vtable). The out-parameters of the last call are cleared once the
/// type info is found.
pub fn invoke_prepare(vm: &mut Vm, stack_ptr: u32) -> (r: InvokeStep)
    ensures
        same_setup(old(vm), final(vm)),
        match invoke_setup(old(vm), stack_ptr) {
            None => r == InvokeStep::Done(DISP_E_MEMBERNOTFOUND) && *final(vm) == *old(vm),
            Some((info, sel, thiscall)) => {
                &&& com_same_but_outs(old(vm), final(vm))
                &&& final(vm).com.last_out_params@.len() == 0
                &&& match invoke_func(info, sel.memid, sel.flags, lookup_count(old(vm), info, sel)) {
                    None => r == InvokeStep::Done(DISP_E_MEMBERNOTFOUND) && same_memory(old(vm), final(vm)),
                    Some(fi) => {
                        let f = info.funcs@[fi];
                        exists|m: Vm|
                            same_memory(&m, final(vm)) && #[trigger] call_prepared(
                                old(vm),
                                &m,
                                f.params@,
                                f.vtable_offset,
                                f.ret_vt,
                                sel,
                                r,
                            )
                    },
                }
            },
        },
{
    let (_, info_id, thiscall) = match resolve_typeinfo_info(vm, stack_ptr) {
        Some(t) => t,
        None => return InvokeStep::Done(DISP_E_MEMBERNOTFOUND),
    };
    let slots = read_stack_slots(vm, stack_ptr);
    let (sel, found) = match vm.com.get_typeinfo(info_id) {
        Some(info) => select_call(vm, info, &slots, thiscall),
        None => return InvokeStep::Done(DISP_E_MEMBERNOTFOUND),
    };
    let func = match found {
        Some(f) => f,
        None => {
            vm.com.last_out_params = Vec::new();
            return InvokeStep::Done(DISP_E_MEMBERNOTFOUND);
        },
    };
    let r = prepare_call(vm, func, sel);
    let ghost m = *vm;
    vm.com.last_out_params = Vec::new();
    proof {
        assert(same_memory(&m, &*vm));
    }
    r
}

/// The value left in the return-value parameter of a call, with its
/// reported type, where that parameter's buffer can be read.
pub open spec fn retval_read(vm: &Vm, args: Seq<u32>, rp: Option<(usize, u16)>) -> Option<(u16, u32)> {
    match rp {
        None => None,
        Some((i, vt)) => if i < args.len() && args[i as int] != 0 {
            match mem_u32(vm, args[i as int] as int) {
                Some(v) => Some((retval_vt(vt), v)),
                None => None,
            }
        } else {
            None
        },
    }
}

/// What is stored in the result VARIANT of a call that returned `result`,
/// with its type: nothing without a result pointer or for a function that
/// returns nothing; for an HRESULT function the value of its return-value
/// parameter where that can be read, else the HRESULT as a 32-bit integer;
/// else the returned value with the function's return type.
pub open spec fn result_variant(vm: &Vm, c: InvokeCall, result: u32) -> Option<(u16, u32)> {
    if c.result_ptr == 0 || c.ret_vt == VT_VOID || c.ret_vt == VT_EMPTY {
        None
    } else if c.ret_vt == VT_HRESULT {
        match retval_read(vm, c.args@, c.retval_param) {
            Some(x) => Some(x),
            None => Some((VT_I4, result)),
        }
    } else {
        Some((c.ret_vt, result))
    }
}

/// Memory once 0 is stored at the argument-error pointer (where it is not
/// null).
pub open spec fn arg_err_cleared(base: u32, m: Seq<u8>, arg_err: u32) -> Seq<u8> {
    if arg_err != 0 {
        store(base, m, arg_err as int, bytes32(0))
    } else {
        m
    }
}

/// `ITypeInfo::Invoke` after the call, which returned `result` (`None`
/// where it could not be made: `E_NOTIMPL`, nothing changed). Keeps the
/// call's out-parameters as those of the last call, stores the result
/// VARIANT (`DISP_E_TYPEMISMATCH` where its type cannot be stored), clears
/// the argument-error index, and returns the HRESULT of an HRESULT
/// function, else `S_OK`.
pub fn invoke_finish(vm: &mut Vm, call: InvokeCall, result: Option<u32>) -> (r: u32)
    ensures
        same_setup(old(vm), final(vm)),
        match result {
            None => r == E_NOTIMPL && *final(vm) == *old(vm),
            Some(res) => {
                &&& com_same_but_outs(old(vm), final(vm))
                &&& final(vm).com.last_out_params@ == call.out_params@
                &&& final(vm).heap_cursor == old(vm).heap_cursor
                &&& match result_variant(old(vm), call, res) {
                    None => final(vm).memory@ == arg_err_cleared(old(vm).base, old(vm).memory@, call.arg_err)
                        && r == (if call.ret_vt == VT_HRESULT { res } else { S_OK }),
                    Some((vt, v)) => match stored_vt(vt) {
                        None => r == DISP_E_TYPEMISMATCH && final(vm).memory@ == old(vm).memory@,
                        Some(t) => {
                            let (ok, m) = apply_writes(old(vm).base, old(vm).memory@, variant_u32_parts(call.result_ptr, t, v));
                            if ok {
                                final(vm).memory@ == arg_err_cleared(old(vm).base, m, call.arg_err)
                                    && r == (if call.ret_vt == VT_HRESULT { res } else { S_OK })
                            } else {
                                r == DISP_E_TYPEMISMATCH && final(vm).memory@ == m
                            }
                        },
                    },
                }
            },
        },
{
    let res = match result {
        Some(v) => v,
        None => return E_NOTIMPL,
    };
    let retval_value = match call.retval_param {
        Some((index, vt)) => if index < call.args.len() && call.args[index] != 0 {
            match read_retval_value(vm, call.args[index], vt) {
                Ok(x) => Some(x),
                Err(_) => None,
            }
        } else {
            None
        },
        None => None,
    };
    let ghost c = call;
    let ghost m0 = vm.memory@;
    vm.com.last_out_params = call.out_params;
    assert(vm.memory@ == m0);
    if call.result_ptr != 0 && call.ret_vt != VT_VOID && call.ret_vt != VT_EMPTY {
        let written = if call.ret_vt == VT_HRESULT {
            match retval_value {
                Some((vt, v)) => write_variant_value(vm, call.result_ptr, vt, v),
                None => write_variant_value(vm, call.result_ptr, VT_I4, res),
            }
        } else {
            write_variant_value(vm, call.result_ptr, call.ret_vt, res)
        };
        if written.is_err() {
            return DISP_E_TYPEMISMATCH;
        }
    }
    if call.arg_err != 0 {
        let _ = vm.write_u32(call.arg_err, 0);
    }
    if call.ret_vt == VT_HRESULT {
        res
    } else {
        S_OK
    }
}

} // verus!
