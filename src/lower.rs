//! Lowering of signature types and CIL instructions to Wasm.
use vstd::prelude::*;
use crate::cil::Instruction;
use crate::error::Error;
use crate::heap::UserStringIndex;
use crate::indices::{MemberRefIndex, MethodDefIndex};
use crate::signatures::{
    MethodCallingConvension, MethodDefSig, Param, ParamView, RetType, RetView, Type, TypeView,
    CALL_HAS_THIS,
};
use crate::token::MetadataToken;
use crate::wasm::{ValTy, WasmInstr};

verus! {

/// The Wasm types that a managed type lowers to; none outside the subset.
pub open spec fn lower_type(t: TypeView) -> Option<Seq<ValTy>> {
    match t {
        TypeView::Boolean | TypeView::Char | TypeView::I1 | TypeView::U1 | TypeView::I2
        | TypeView::U2 | TypeView::I4 | TypeView::U4 => Some(seq![ValTy::I32]),
        TypeView::I8 | TypeView::U8 => Some(seq![ValTy::I64]),
        TypeView::R4 => Some(seq![ValTy::F32]),
        TypeView::R8 => Some(seq![ValTy::F64]),
        TypeView::I | TypeView::U => Some(seq![ValTy::I32]),
        TypeView::String => Some(seq![ValTy::I32, ValTy::I32, ValTy::I32]),
        TypeView::SzArray { .. } => Some(seq![ValTy::I32, ValTy::I32]),
        _ => None,
    }
}

/// The Wasm types of a parameter: a pointer for a by-reference parameter.
pub open spec fn lower_param(p: ParamView) -> Option<Seq<ValTy>> {
    match p {
        ParamView::Type { byref, ty } => if byref {
            Some(seq![ValTy::I32])
        } else {
            lower_type(ty)
        },
        ParamView::TypedByref => None,
    }
}

/// The Wasm types of a parameter list, in order.
pub open spec fn lower_params(ps: Seq<ParamView>) -> Option<Seq<ValTy>>
    decreases ps.len(),
{
    if ps.len() == 0 {
        Some(Seq::empty())
    } else {
        match (lower_params(ps.drop_last()), lower_param(ps.last())) {
            (Some(a), Some(b)) => Some(a.add(b)),
            _ => None,
        }
    }
}

/// The Wasm results of a return type: none but for `Void`.
pub open spec fn lower_ret(r: RetView) -> Option<Seq<ValTy>> {
    match r {
        RetView::Void => Some(Seq::empty()),
        _ => None,
    }
}

/// The Wasm function type of a signature: a leading `this` pointer when the
/// calling convention has `HAS_THIS`, then the lowered parameters.
pub open spec fn lower_sig(s: crate::signatures::SigView) -> Option<(Seq<ValTy>, Seq<ValTy>)> {
    match (lower_params(s.params), lower_ret(s.ret)) {
        (Some(p), Some(r)) => Some(
            (
                if s.calling_convension.has_this() {
                    seq![ValTy::I32].add(p)
                } else {
                    p
                },
                r,
            ),
        ),
        _ => None,
    }
}

fn push_vals(out: &mut Vec<ValTy>, v: ValTy, n: usize)
    ensures
        final(out)@ == old(out)@.add(Seq::new(n as nat, |i: int| v)),
{
    let mut i: usize = 0;
    while i < n
        invariant
            i <= n,
            out@ == old(out)@.add(Seq::new(i as nat, |k: int| v)),
        decreases n - i,
    {
        out.push(v);
        i = i + 1;
        assert(out@ =~= old(out)@.add(Seq::new(i as nat, |k: int| v)));
    }
}

/// Appends the Wasm types of one parameter.
pub fn convert_wasm_param(out: &mut Vec<ValTy>, param: &Param) -> (r: Result<(), Error>)
    ensures
        match lower_param(param@) {
            Some(v) => r is Ok && final(out)@ == old(out)@.add(v),
            None => r == Err::<(), Error>(Error::UnsupportedSignature) && final(out)@ == old(
                out,
            )@,
        },
{
    match param {
        Param::Type { byref: true, .. } => {
            push_vals(out, ValTy::I32, 1);
            assert(Seq::new(1, |i: int| ValTy::I32) =~= seq![ValTy::I32]);
            Ok(())
        },
        Param::Type { byref: false, ty } => {
            let (v, n): (ValTy, usize) = match ty {
                Type::Boolean | Type::Char | Type::I1 | Type::I2 | Type::I4 | Type::U1 | Type::U2
                | Type::U4 | Type::I | Type::U => (ValTy::I32, 1),
                Type::I8 | Type::U8 => (ValTy::I64, 1),
                Type::R4 => (ValTy::F32, 1),
                Type::R8 => (ValTy::F64, 1),
                Type::String => (ValTy::I32, 3),
                Type::SzArray { .. } => (ValTy::I32, 2),
                _ => {
                    return Err(Error::UnsupportedSignature);
                },
            };
            push_vals(out, v, n);
            assert(Seq::new(1, |i: int| v) =~= seq![v]);
            assert(Seq::new(2, |i: int| v) =~= seq![v, v]);
            assert(Seq::new(3, |i: int| v) =~= seq![v, v, v]);
            Ok(())
        },
        Param::TypedByref => Err(Error::UnsupportedSignature),
    }
}

/// The Wasm results of a return type.
pub fn convert_wasm_return(ret: &RetType) -> (r: Result<Vec<ValTy>, Error>)
    ensures
        match lower_ret(ret@) {
            Some(v) => r matches Ok(x) && x@ == v,
            None => r == Err::<Vec<ValTy>, Error>(Error::UnsupportedSignature),
        },
{
    match ret {
        RetType::Void => Ok(Vec::new()),
        _ => Err(Error::UnsupportedSignature),
    }
}

/// The Wasm parameter and result types of a signature.
pub fn lower_signature(sig: &MethodDefSig) -> (r: Result<(Vec<ValTy>, Vec<ValTy>), Error>)
    ensures
        match lower_sig(sig@) {
            Some((p, res)) => r matches Ok((x, y)) && x@ == p && y@ == res,
            None => r == Err::<(Vec<ValTy>, Vec<ValTy>), Error>(Error::UnsupportedSignature),
        },
{
    let mut params: Vec<ValTy> = Vec::new();
    let has_this = sig.calling_convension.contains(MethodCallingConvension(CALL_HAS_THIS));
    if has_this {
        params.push(ValTy::I32);
    }
    let ghost head = params@;
    let mut i: usize = 0;
    while i < sig.params.len()
        invariant
            i <= sig.params@.len(),
            head == (if sig.calling_convension.has_this() {
                seq![ValTy::I32]
            } else {
                Seq::<ValTy>::empty()
            }),
            lower_params(crate::signatures::params_view(sig.params@).subrange(0, i as int)) matches Some(
                p,
            ) && params@ == head.add(p),
        decreases sig.params@.len() - i,
    {
        let ghost before = params@;
        let ghost ps = crate::signatures::params_view(sig.params@);
        assert(ps.subrange(0, i + 1).drop_last() =~= ps.subrange(0, i as int));
        assert(ps.subrange(0, i + 1).last() == sig.params@[i as int]@);
        match convert_wasm_param(&mut params, &sig.params[i]) {
            Ok(()) => {},
            Err(e) => {
                proof {
                    lemma_lower_params_prefix(ps, i as int + 1);
                }
                return Err(e);
            },
        }
        proof {
            let p = lower_params(ps.subrange(0, i as int))->0;
            let q = lower_param(ps[i as int])->0;
            assert(head.add(p).add(q) =~= head.add(p.add(q)));
        }
        i = i + 1;
    }
    proof {
        let ps = crate::signatures::params_view(sig.params@);
        assert(ps.subrange(0, i as int) =~= ps);
        if !sig.calling_convension.has_this() {
            assert(head.add(params@) =~= params@) by {
                assert(Seq::<ValTy>::empty().add(lower_params(ps)->0) =~= lower_params(ps)->0);
            }
        }
    }
    let results = convert_wasm_return(&sig.ret)?;
    Ok((params, results))
}

/// When a prefix of a parameter list cannot be lowered, neither can the list.
proof fn lemma_lower_params_prefix(ps: Seq<ParamView>, k: int)
    requires
        0 <= k <= ps.len(),
        lower_params(ps.subrange(0, k)) is None,
    ensures
        lower_params(ps) is None,
    decreases ps.len() - k,
{
    if k < ps.len() {
        assert(ps.subrange(0, k + 1).drop_last() =~= ps.subrange(0, k));
        lemma_lower_params_prefix(ps, k + 1);
    } else {
        assert(ps.subrange(0, k) =~= ps);
    }
}

/// What the string cache records of a user string: where its bytes start in
/// memory and how many there are.
#[derive(Debug, Clone, Copy, PartialEq, Eq, Structural)]
pub struct StringCacheData {
    pub data_index: i32,
    pub str_len: u32,
}

/// The function index assigned to a method definition.
#[derive(Debug, Clone, Copy, PartialEq, Eq, Structural)]
pub struct MethodCacheData {
    pub fn_index: u32,
}

/// The function index assigned to an imported member reference.
#[derive(Debug, Clone, Copy, PartialEq, Eq, Structural)]
pub struct MemberRefCacheData {
    pub fn_index: u32,
}

/// The entry of the last occurrence of `i` in a cache.
pub open spec fn find_string(c: Seq<(UserStringIndex, StringCacheData)>, i: UserStringIndex) -> Option<StringCacheData>
    decreases c.len(),
{
    if c.len() == 0 {
        None
    } else if c.last().0 == i {
        Some(c.last().1)
    } else {
        find_string(c.drop_last(), i)
    }
}

pub open spec fn find_method(c: Seq<(MethodDefIndex, MethodCacheData)>, i: MethodDefIndex) -> Option<MethodCacheData>
    decreases c.len(),
{
    if c.len() == 0 {
        None
    } else if c.last().0 == i {
        Some(c.last().1)
    } else {
        find_method(c.drop_last(), i)
    }
}

pub open spec fn find_member_ref(c: Seq<(MemberRefIndex, MemberRefCacheData)>, i: MemberRefIndex) -> Option<MemberRefCacheData>
    decreases c.len(),
{
    if c.len() == 0 {
        None
    } else if c.last().0 == i {
        Some(c.last().1)
    } else {
        find_member_ref(c.drop_last(), i)
    }
}

pub fn lookup_string(c: &Vec<(UserStringIndex, StringCacheData)>, i: UserStringIndex) -> (r: Option<StringCacheData>)
    ensures
        r == find_string(c@, i),
{
    let mut k = c.len();
    assert(c@.subrange(0, k as int) =~= c@);
    while k > 0
        invariant
            k <= c@.len(),
            find_string(c@, i) == find_string(c@.subrange(0, k as int), i),
        decreases k,
    {
        assert(c@.subrange(0, k as int).drop_last() =~= c@.subrange(0, k - 1));
        if c[k - 1].0 == i {
            return Some(c[k - 1].1);
        }
        k = k - 1;
    }
    None
}

pub fn lookup_method(c: &Vec<(MethodDefIndex, MethodCacheData)>, i: MethodDefIndex) -> (r: Option<MethodCacheData>)
    ensures
        r == find_method(c@, i),
{
    let mut k = c.len();
    assert(c@.subrange(0, k as int) =~= c@);
    while k > 0
        invariant
            k <= c@.len(),
            find_method(c@, i) == find_method(c@.subrange(0, k as int), i),
        decreases k,
    {
        assert(c@.subrange(0, k as int).drop_last() =~= c@.subrange(0, k - 1));
        if c[k - 1].0 == i {
            return Some(c[k - 1].1);
        }
        k = k - 1;
    }
    None
}

pub fn lookup_member_ref(c: &Vec<(MemberRefIndex, MemberRefCacheData)>, i: MemberRefIndex) -> (r: Option<MemberRefCacheData>)
    ensures
        r == find_member_ref(c@, i),
{
    let mut k = c.len();
    assert(c@.subrange(0, k as int) =~= c@);
    while k > 0
        invariant
            k <= c@.len(),
            find_member_ref(c@, i) == find_member_ref(c@.subrange(0, k as int), i),
        decreases k,
    {
        assert(c@.subrange(0, k as int).drop_last() =~= c@.subrange(0, k - 1));
        if c[k - 1].0 == i {
            return Some(c[k - 1].1);
        }
        k = k - 1;
    }
    None
}

/// The Wasm instructions of one CIL instruction: a string literal pushes its
/// offset, length and a zero capacity; a call goes to the function index of
/// its method or imported member.
pub open spec fn lower_instr(
    i: Instruction,
    strings: Seq<(UserStringIndex, StringCacheData)>,
    methods: Seq<(MethodDefIndex, MethodCacheData)>,
    member_refs: Seq<(MemberRefIndex, MemberRefCacheData)>,
) -> Result<Seq<WasmInstr>, Error> {
    match i {
        Instruction::Nop => Ok(seq![WasmInstr::Nop]),
        Instruction::Ret => Ok(seq![WasmInstr::Return]),
        Instruction::LdArg(n) => Ok(seq![WasmInstr::LocalGet(n)]),
        Instruction::LdStr(t) => match t {
            MetadataToken::UserString(u) => match find_string(strings, u) {
                Some(d) => Ok(
                    seq![
                        WasmInstr::I32Const(d.data_index),
                        WasmInstr::I32Const(d.str_len as i32),
                        WasmInstr::I32Const(0),
                    ],
                ),
                None => Err(Error::BadIndex),
            },
            _ => Err(Error::BadToken),
        },
        Instruction::Call(t) => match t {
            MetadataToken::MethodDef(m) => match find_method(methods, m) {
                Some(d) => Ok(seq![WasmInstr::Call(d.fn_index)]),
                None => Err(Error::BadIndex),
            },
            MetadataToken::MemberRef(m) => match find_member_ref(member_refs, m) {
                Some(d) => Ok(seq![WasmInstr::Call(d.fn_index)]),
                None => Err(Error::BadIndex),
            },
            MetadataToken::MethodSpec(_) => Err(Error::UnsupportedGenericCall),
            _ => Err(Error::MalformedCallTarget),
        },
        _ => Err(Error::UnsupportedOpcode),
    }
}

/// The Wasm instructions of a CIL instruction sequence; the first
/// instruction that cannot be lowered decides the error.
pub open spec fn lower_instrs(
    is: Seq<Instruction>,
    strings: Seq<(UserStringIndex, StringCacheData)>,
    methods: Seq<(MethodDefIndex, MethodCacheData)>,
    member_refs: Seq<(MemberRefIndex, MemberRefCacheData)>,
) -> Result<Seq<WasmInstr>, Error>
    decreases is.len(),
{
    if is.len() == 0 {
        Ok(Seq::empty())
    } else {
        match lower_instrs(is.drop_last(), strings, methods, member_refs) {
            Ok(a) => match lower_instr(is.last(), strings, methods, member_refs) {
                Ok(b) => Ok(a.add(b)),
                Err(e) => Err(e),
            },
            Err(e) => Err(e),
        }
    }
}

/// The body of a lowered function: its instructions, then `end`.
pub open spec fn lower_function(
    is: Seq<Instruction>,
    strings: Seq<(UserStringIndex, StringCacheData)>,
    methods: Seq<(MethodDefIndex, MethodCacheData)>,
    member_refs: Seq<(MemberRefIndex, MemberRefCacheData)>,
) -> Result<Seq<WasmInstr>, Error> {
    match lower_instrs(is, strings, methods, member_refs) {
        Ok(a) => Ok(a.push(WasmInstr::End)),
        Err(e) => Err(e),
    }
}

/// Lowers a method's instructions one for one and closes the body with `end`.
pub fn convert_wasm_function(
    instructions: &Vec<Instruction>,
    strings: &Vec<(UserStringIndex, StringCacheData)>,
    methods: &Vec<(MethodDefIndex, MethodCacheData)>,
    member_refs: &Vec<(MemberRefIndex, MemberRefCacheData)>,
) -> (r: Result<Vec<WasmInstr>, Error>)
    ensures
        match lower_function(instructions@, strings@, methods@, member_refs@) {
            Ok(v) => r matches Ok(x) && x@ == v,
            Err(e) => r == Err::<Vec<WasmInstr>, Error>(e),
        },
{
    let mut out: Vec<WasmInstr> = Vec::new();
    let mut k: usize = 0;
    while k < instructions.len()
        invariant
            k <= instructions@.len(),
            lower_instrs(instructions@.subrange(0, k as int), strings@, methods@, member_refs@)
                == Ok::<Seq<WasmInstr>, Error>(out@),
        decreases instructions@.len() - k,
    {
        let ghost is = instructions@;
        assert(is.subrange(0, k + 1).drop_last() =~= is.subrange(0, k as int));
        let lowered: Result<Vec<WasmInstr>, Error> = match instructions[k] {
            Instruction::Nop => Ok(vec![WasmInstr::Nop]),
            Instruction::Ret => Ok(vec![WasmInstr::Return]),
            Instruction::LdArg(n) => Ok(vec![WasmInstr::LocalGet(n)]),
            Instruction::LdStr(t) => match t {
                MetadataToken::UserString(u) => match lookup_string(strings, u) {
                    Some(d) => Ok(
                        vec![
                            WasmInstr::I32Const(d.data_index),
                            WasmInstr::I32Const(d.str_len as i32),
                            WasmInstr::I32Const(0),
                        ],
                    ),
                    None => Err(Error::BadIndex),
                },
                _ => Err(Error::BadToken),
            },
            Instruction::Call(t) => match t {
                MetadataToken::MethodDef(m) => match lookup_method(methods, m) {
                    Some(d) => Ok(vec![WasmInstr::Call(d.fn_index)]),
                    None => Err(Error::BadIndex),
                },
                MetadataToken::MemberRef(m) => match lookup_member_ref(member_refs, m) {
                    Some(d) => Ok(vec![WasmInstr::Call(d.fn_index)]),
                    None => Err(Error::BadIndex),
                },
                MetadataToken::MethodSpec(_) => Err(Error::UnsupportedGenericCall),
                _ => Err(Error::MalformedCallTarget),
            },
            _ => Err(Error::UnsupportedOpcode),
        };
        match lowered {
            Ok(v) => {
                proof {
                    assert(v@ =~= lower_instr(is[k as int], strings@, methods@, member_refs@)->Ok_0);
                }
                let mut j: usize = 0;
                let ghost before = out@;
                while j < v.len()
                    invariant
                        j <= v@.len(),
                        out@ == before.add(v@.subrange(0, j as int)),
                    decreases v@.len() - j,
                {
                    out.push(v[j]);
                    j = j + 1;
                    assert(out@ =~= before.add(v@.subrange(0, j as int)));
                }
                assert(v@.subrange(0, j as int) =~= v@);
            },
            Err(e) => {
                proof {
                    lemma_lower_instrs_prefix(is, k as int + 1, strings@, methods@, member_refs@, e);
                }
                return Err(e);
            },
        }
        k = k + 1;
    }
    assert(instructions@.subrange(0, k as int) =~= instructions@);
    out.push(WasmInstr::End);
    Ok(out)
}

/// When a prefix fails to lower, the whole sequence fails with its error.
proof fn lemma_lower_instrs_prefix(
    is: Seq<Instruction>,
    k: int,
    strings: Seq<(UserStringIndex, StringCacheData)>,
    methods: Seq<(MethodDefIndex, MethodCacheData)>,
    member_refs: Seq<(MemberRefIndex, MemberRefCacheData)>,
    e: Error,
)
    requires
        0 <= k <= is.len(),
        lower_instrs(is.subrange(0, k), strings, methods, member_refs) == Err::<Seq<WasmInstr>, Error>(e),
    ensures
        lower_instrs(is, strings, methods, member_refs) == Err::<Seq<WasmInstr>, Error>(e),
    decreases is.len() - k,
{
    if k < is.len() {
        assert(is.subrange(0, k + 1).drop_last() =~= is.subrange(0, k));
        lemma_lower_instrs_prefix(is, k + 1, strings, methods, member_refs, e);
    } else {
        assert(is.subrange(0, k) =~= is);
    }
}

} // verus!
