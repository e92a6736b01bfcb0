//! Method signatures and the type grammar of signature blobs.
use vstd::prelude::*;
use crate::bytes::{le32, read_u32};
use crate::compressed::{u_at, U};
use crate::error::Error;
use crate::indices::{TypeDefIndex, TypeRefIndex, TypeSpecIndex};

verus! {

/// Element-type tags of the signature grammar.
pub const ELEMENT_VOID: u8 = 0x01;
pub const ELEMENT_BOOLEAN: u8 = 0x02;
pub const ELEMENT_CHAR: u8 = 0x03;
pub const ELEMENT_I1: u8 = 0x04;
pub const ELEMENT_U1: u8 = 0x05;
pub const ELEMENT_I2: u8 = 0x06;
pub const ELEMENT_U2: u8 = 0x07;
pub const ELEMENT_I4: u8 = 0x08;
pub const ELEMENT_U4: u8 = 0x09;
pub const ELEMENT_I8: u8 = 0x0a;
pub const ELEMENT_U8: u8 = 0x0b;
pub const ELEMENT_R4: u8 = 0x0c;
pub const ELEMENT_R8: u8 = 0x0d;
pub const ELEMENT_STRING: u8 = 0x0e;
pub const ELEMENT_BYREF: u8 = 0x10;
pub const ELEMENT_VAR: u8 = 0x13;
pub const ELEMENT_TYPED_BYREF: u8 = 0x16;
pub const ELEMENT_I: u8 = 0x18;
pub const ELEMENT_U: u8 = 0x19;
pub const ELEMENT_OBJECT: u8 = 0x1c;
pub const ELEMENT_SZARRAY: u8 = 0x1d;
pub const ELEMENT_CMOD_REQD: u8 = 0x1f;
pub const ELEMENT_CMOD_OPT: u8 = 0x20;

/// The calling-convention byte of a method signature, as a set of bits.
#[derive(Debug, Clone, Copy, PartialEq, Eq, Structural)]
pub struct MethodCallingConvension(pub u8);

/// The calling-convention bits.
pub const CALL_DEFAULT: u8 = 0x00;
pub const CALL_VAR_ARG: u8 = 0x05;
pub const CALL_GENERIC: u8 = 0x10;
pub const CALL_HAS_THIS: u8 = 0x20;
pub const CALL_EXPLICIT_THIS: u8 = 0x40;

impl MethodCallingConvension {

    /// Whether every bit of `other` is set.
    pub fn contains(self, other: MethodCallingConvension) -> (r: bool)
        ensures
            r == (self.0 & other.0 == other.0),
    {
        self.0 & other.0 == other.0
    }

    /// Whether the `HAS_THIS` bit is set: the method takes a `this` argument.
    pub open spec fn has_this(self) -> bool {
        self.0 & CALL_HAS_THIS == CALL_HAS_THIS
    }
}

/// A type token as a 32-bit little-endian value: the tag in the low two bits
/// selects `TypeDef`, `TypeRef` or `TypeSpec`, the high 24 bits are the row.
#[derive(Debug, Clone, Copy, PartialEq, Eq, Structural)]
pub enum TypeDefOrRefOrSpecEncoded {
    TypeDef(TypeDefIndex),
    TypeRef(TypeRefIndex),
    TypeSpec(TypeSpecIndex),
}

/// An optional or required custom modifier.
#[derive(Debug, Clone, Copy, PartialEq, Eq, Structural)]
pub enum CustomMod {
    Opt(TypeDefOrRefOrSpecEncoded),
    Reqd(TypeDefOrRefOrSpecEncoded),
}

/// A type of the signature grammar.
#[derive(Debug, PartialEq, Eq)]
pub enum Type {
    Boolean,
    Char,
    I1,
    U1,
    I2,
    U2,
    I4,
    U4,
    I8,
    U8,
    R4,
    R8,
    I,
    U,
    Object,
    String,
    SzArray { element_ty: Box<Type>, mods: Vec<CustomMod> },
    Var { count: U },
}

/// A parameter of a method signature.
#[derive(Debug, PartialEq, Eq)]
pub enum Param {
    Type { byref: bool, ty: Type },
    TypedByref,
}

/// The return type of a method signature.
#[derive(Debug, PartialEq, Eq)]
pub enum RetType {
    Type { byref: bool, ty: Type },
    Void,
    TypedByref,
}

/// A method signature.
#[derive(Debug, PartialEq, Eq)]
pub struct MethodDefSig {
    pub calling_convension: MethodCallingConvension,
    pub ret: RetType,
    pub params: Vec<Param>,
}

/// The value of a `Type`, with sequences in place of vectors.
pub enum TypeView {
    Boolean,
    Char,
    I1,
    U1,
    I2,
    U2,
    I4,
    U4,
    I8,
    U8,
    R4,
    R8,
    I,
    U,
    Object,
    String,
    SzArray { element_ty: Box<TypeView>, mods: Seq<CustomMod> },
    Var { count: U },
}

pub enum ParamView {
    Type { byref: bool, ty: TypeView },
    TypedByref,
}

pub enum RetView {
    Type { byref: bool, ty: TypeView },
    Void,
    TypedByref,
}

pub struct SigView {
    pub calling_convension: MethodCallingConvension,
    pub ret: RetView,
    pub params: Seq<ParamView>,
}

impl View for Type {
    type V = TypeView;

    open spec fn view(&self) -> TypeView
        decreases self,
    {
        match self {
            Type::Boolean => TypeView::Boolean,
            Type::Char => TypeView::Char,
            Type::I1 => TypeView::I1,
            Type::U1 => TypeView::U1,
            Type::I2 => TypeView::I2,
            Type::U2 => TypeView::U2,
            Type::I4 => TypeView::I4,
            Type::U4 => TypeView::U4,
            Type::I8 => TypeView::I8,
            Type::U8 => TypeView::U8,
            Type::R4 => TypeView::R4,
            Type::R8 => TypeView::R8,
            Type::I => TypeView::I,
            Type::U => TypeView::U,
            Type::Object => TypeView::Object,
            Type::String => TypeView::String,
            Type::SzArray { element_ty, mods } => TypeView::SzArray {
                element_ty: Box::new((**element_ty).view()),
                mods: mods@,
            },
            Type::Var { count } => TypeView::Var { count: *count },
        }
    }
}

impl View for Param {
    type V = ParamView;

    open spec fn view(&self) -> ParamView {
        match self {
            Param::Type { byref, ty } => ParamView::Type { byref: *byref, ty: ty@ },
            Param::TypedByref => ParamView::TypedByref,
        }
    }
}

impl View for RetType {
    type V = RetView;

    open spec fn view(&self) -> RetView {
        match self {
            RetType::Type { byref, ty } => RetView::Type { byref: *byref, ty: ty@ },
            RetType::Void => RetView::Void,
            RetType::TypedByref => RetView::TypedByref,
        }
    }
}

/// The views of a sequence of parameters.
pub open spec fn params_view(ps: Seq<Param>) -> Seq<ParamView> {
    ps.map_values(|p: Param| p@)
}

impl View for MethodDefSig {
    type V = SigView;

    open spec fn view(&self) -> SigView {
        SigView {
            calling_convension: self.calling_convension,
            ret: self.ret@,
            params: params_view(self.params@),
        }
    }
}

/// The encoded type token read at `p`.
pub open spec fn encoded_at(s: Seq<u8>, p: usize) -> Result<(TypeDefOrRefOrSpecEncoded, usize), Error> {
    if p + 4 > s.len() || s.len() > usize::MAX {
        Err(Error::BadInput)
    } else {
        let v = le32(s, p as int) as u32;
        let tag = v & 3u32;
        let row = v >> 8u32;
        if tag == 0 {
            Ok((TypeDefOrRefOrSpecEncoded::TypeDef(TypeDefIndex(row)), (p + 4) as usize))
        } else if tag == 1 {
            Ok((TypeDefOrRefOrSpecEncoded::TypeRef(TypeRefIndex(row)), (p + 4) as usize))
        } else if tag == 2 {
            Ok((TypeDefOrRefOrSpecEncoded::TypeSpec(TypeSpecIndex(row)), (p + 4) as usize))
        } else {
            Err(Error::BadInput)
        }
    }
}

/// Whether the byte at `p` starts a custom modifier.
pub open spec fn cmod_next(s: Seq<u8>, p: usize) -> bool {
    p < s.len() && (s[p as int] == ELEMENT_CMOD_OPT || s[p as int] == ELEMENT_CMOD_REQD)
}

/// The custom modifier read at `p`, which must start one.
pub open spec fn cmod_at(s: Seq<u8>, p: usize) -> Result<(CustomMod, usize), Error> {
    match encoded_at(s, (p + 1) as usize) {
        Ok((e, q)) => if s[p as int] == ELEMENT_CMOD_OPT {
            Ok((CustomMod::Opt(e), q))
        } else {
            Ok((CustomMod::Reqd(e), q))
        },
        Err(e) => Err(e),
    }
}

/// The run of custom modifiers that starts at `p`, and the position after it.
pub open spec fn cmods_at(s: Seq<u8>, p: usize) -> Result<(Seq<CustomMod>, usize), Error>
    decreases s.len() - p,
    via cmods_at_decreases
{
    if !cmod_next(s, p) || p + 1 > usize::MAX {
        Ok((Seq::empty(), p))
    } else {
        match cmod_at(s, p) {
            Ok((m, q)) => if q <= p {
                Err(Error::BadInput)
            } else {
                match cmods_at(s, q) {
                    Ok((rest, r)) => Ok((seq![m].add(rest), r)),
                    Err(e) => Err(e),
                }
            },
            Err(e) => Err(e),
        }
    }
}

#[via_fn]
proof fn cmods_at_decreases(s: Seq<u8>, p: usize) {
    if cmod_next(s, p) && p + 1 <= usize::MAX {
        if let Ok((m, q)) = cmod_at(s, p) {
            if q > p {
                if let Ok((v, q2)) = encoded_at(s, (p + 1) as usize) {
                    assert(q2 <= s.len());
                }
            }
        }
    }
}

/// The primitive type that a one-byte element type denotes.
pub open spec fn primitive_of(b: u8) -> Option<TypeView> {
    if b == ELEMENT_BOOLEAN {
        Some(TypeView::Boolean)
    } else if b == ELEMENT_CHAR {
        Some(TypeView::Char)
    } else if b == ELEMENT_I1 {
        Some(TypeView::I1)
    } else if b == ELEMENT_U1 {
        Some(TypeView::U1)
    } else if b == ELEMENT_I2 {
        Some(TypeView::I2)
    } else if b == ELEMENT_U2 {
        Some(TypeView::U2)
    } else if b == ELEMENT_I4 {
        Some(TypeView::I4)
    } else if b == ELEMENT_U4 {
        Some(TypeView::U4)
    } else if b == ELEMENT_I8 {
        Some(TypeView::I8)
    } else if b == ELEMENT_U8 {
        Some(TypeView::U8)
    } else if b == ELEMENT_R4 {
        Some(TypeView::R4)
    } else if b == ELEMENT_R8 {
        Some(TypeView::R8)
    } else if b == ELEMENT_I {
        Some(TypeView::I)
    } else if b == ELEMENT_U {
        Some(TypeView::U)
    } else if b == ELEMENT_OBJECT {
        Some(TypeView::Object)
    } else if b == ELEMENT_STRING {
        Some(TypeView::String)
    } else {
        None
    }
}

/// The type read at `p`, and the position after it.
pub open spec fn type_at(s: Seq<u8>, p: usize) -> Result<(TypeView, usize), Error>
    decreases s.len() - p,
    via type_at_decreases
{
    if p >= s.len() || s.len() > usize::MAX {
        Err(Error::BadInput)
    } else if primitive_of(s[p as int]) is Some {
        Ok((primitive_of(s[p as int])->0, (p + 1) as usize))
    } else if s[p as int] == ELEMENT_SZARRAY {
        match cmods_at(s, (p + 1) as usize) {
            Ok((mods, q)) => if q <= p {
                Err(Error::BadInput)
            } else {
                match type_at(s, q) {
                    Ok((t, r)) => Ok((TypeView::SzArray { element_ty: Box::new(t), mods }, r)),
                    Err(e) => Err(e),
                }
            },
            Err(e) => Err(e),
        }
    } else if s[p as int] == ELEMENT_VAR {
        match u_at(s, (p + 1) as usize) {
            Ok((n, q)) => Ok((TypeView::Var { count: n }, q)),
            Err(e) => Err(e),
        }
    } else {
        Err(Error::UnsupportedSignature)
    }
}

#[via_fn]
proof fn type_at_decreases(s: Seq<u8>, p: usize) {
    if p < s.len() && s.len() <= usize::MAX && primitive_of(s[p as int]) is None && s[p as int]
        == ELEMENT_SZARRAY {
        lemma_cmods_bound(s, (p + 1) as usize);
    }
}

proof fn lemma_cmods_bound(s: Seq<u8>, p: usize)
    ensures
        cmods_at(s, p) matches Ok((m, q)) ==> p <= q && (p < s.len() ==> q <= s.len()),
    decreases s.len() - p,
{
    if cmod_next(s, p) && p + 1 <= usize::MAX {
        if let Ok((m, q)) = cmod_at(s, p) {
            if q > p {
                if let Ok((v, q2)) = encoded_at(s, (p + 1) as usize) {
                    assert(q2 <= s.len());
                }
                lemma_cmods_bound(s, q);
            }
        }
    }
}

/// The parameter read at `p`.
pub open spec fn param_at(s: Seq<u8>, p: usize) -> Result<(ParamView, usize), Error> {
    if p >= s.len() || s.len() > usize::MAX {
        Err(Error::BadInput)
    } else if s[p as int] == ELEMENT_TYPED_BYREF {
        Ok((ParamView::TypedByref, (p + 1) as usize))
    } else if s[p as int] == ELEMENT_BYREF {
        match type_at(s, (p + 1) as usize) {
            Ok((t, q)) => Ok((ParamView::Type { byref: true, ty: t }, q)),
            Err(e) => Err(e),
        }
    } else {
        match type_at(s, p) {
            Ok((t, q)) => Ok((ParamView::Type { byref: false, ty: t }, q)),
            Err(e) => Err(e),
        }
    }
}

/// The return type read at `p`.
pub open spec fn ret_at(s: Seq<u8>, p: usize) -> Result<(RetView, usize), Error> {
    if p >= s.len() || s.len() > usize::MAX {
        Err(Error::BadInput)
    } else if s[p as int] == ELEMENT_VOID {
        Ok((RetView::Void, (p + 1) as usize))
    } else if s[p as int] == ELEMENT_TYPED_BYREF {
        Ok((RetView::TypedByref, (p + 1) as usize))
    } else if s[p as int] == ELEMENT_BYREF {
        match type_at(s, (p + 1) as usize) {
            Ok((t, q)) => Ok((RetView::Type { byref: true, ty: t }, q)),
            Err(e) => Err(e),
        }
    } else {
        match type_at(s, p) {
            Ok((t, q)) => Ok((RetView::Type { byref: false, ty: t }, q)),
            Err(e) => Err(e),
        }
    }
}

/// `n` consecutive parameters read from `p`.
pub open spec fn params_at(s: Seq<u8>, p: usize, n: nat) -> Result<(Seq<ParamView>, usize), Error>
    decreases n,
{
    if n == 0 {
        Ok((Seq::empty(), p))
    } else {
        match param_at(s, p) {
            Ok((x, q)) => match params_at(s, q, (n - 1) as nat) {
                Ok((rest, r)) => Ok((seq![x].add(rest), r)),
                Err(e) => Err(e),
            },
            Err(e) => Err(e),
        }
    }
}

/// The method signature read at `p`: the calling convention, the parameter
/// count, the return type, then the parameters.
pub open spec fn sig_at(s: Seq<u8>, p: usize) -> Result<(SigView, usize), Error> {
    if p >= s.len() || s.len() > usize::MAX {
        Err(Error::BadInput)
    } else {
        match u_at(s, (p + 1) as usize) {
            Ok((n, q)) => match ret_at(s, q) {
                Ok((ret, q2)) => match params_at(s, q2, n.0 as nat) {
                    Ok((params, q3)) => Ok((
                        SigView {
                            calling_convension: MethodCallingConvension(s[p as int]),
                            ret,
                            params,
                        },
                        q3,
                    )),
                    Err(e) => Err(e),
                },
                Err(e) => Err(e),
            },
            Err(e) => Err(e),
        }
    }
}

fn primitive_exec(b: u8) -> (r: Option<Type>)
    ensures
        r matches Some(t) ==> primitive_of(b) == Some(t@),
        r is None <==> primitive_of(b) is None,
{
    if b == ELEMENT_BOOLEAN {
        Some(Type::Boolean)
    } else if b == ELEMENT_CHAR {
        Some(Type::Char)
    } else if b == ELEMENT_I1 {
        Some(Type::I1)
    } else if b == ELEMENT_U1 {
        Some(Type::U1)
    } else if b == ELEMENT_I2 {
        Some(Type::I2)
    } else if b == ELEMENT_U2 {
        Some(Type::U2)
    } else if b == ELEMENT_I4 {
        Some(Type::I4)
    } else if b == ELEMENT_U4 {
        Some(Type::U4)
    } else if b == ELEMENT_I8 {
        Some(Type::I8)
    } else if b == ELEMENT_U8 {
        Some(Type::U8)
    } else if b == ELEMENT_R4 {
        Some(Type::R4)
    } else if b == ELEMENT_R8 {
        Some(Type::R8)
    } else if b == ELEMENT_I {
        Some(Type::I)
    } else if b == ELEMENT_U {
        Some(Type::U)
    } else if b == ELEMENT_OBJECT {
        Some(Type::Object)
    } else if b == ELEMENT_STRING {
        Some(Type::String)
    } else {
        None
    }
}

impl TypeDefOrRefOrSpecEncoded {
    /// Reads an encoded type token at `p`.
    pub fn parse(s: &[u8], p: usize) -> (r: Result<(TypeDefOrRefOrSpecEncoded, usize), Error>)
        ensures
            r == encoded_at(s@, p),
    {
        let n = s.len();
        let v = match read_u32(s, p) {
            Some(v) => v,
            None => {
                return Err(Error::BadInput);
            },
        };
        assert(p + 4 <= n);
        let tag = v & 3u32;
        let row = v >> 8u32;
        if tag == 0 {
            Ok((TypeDefOrRefOrSpecEncoded::TypeDef(TypeDefIndex(row)), p + 4))
        } else if tag == 1 {
            Ok((TypeDefOrRefOrSpecEncoded::TypeRef(TypeRefIndex(row)), p + 4))
        } else if tag == 2 {
            Ok((TypeDefOrRefOrSpecEncoded::TypeSpec(TypeSpecIndex(row)), p + 4))
        } else {
            Err(Error::BadInput)
        }
    }
}

impl CustomMod {
    /// Reads a custom modifier at `p`; any other element type is a tag mismatch.
    pub fn parse(s: &[u8], p: usize) -> (r: Result<(CustomMod, usize), Error>)
        ensures
            r == (if cmod_next(s@, p) && p + 1 <= usize::MAX {
                cmod_at(s@, p)
            } else {
                Err(Error::BadInput)
            }),
    {
        let n = s.len();
        if p >= n || (s[p] != ELEMENT_CMOD_OPT && s[p] != ELEMENT_CMOD_REQD) {
            return Err(Error::BadInput);
        }
        let (e, q) = TypeDefOrRefOrSpecEncoded::parse(s, p + 1)?;
        if s[p] == ELEMENT_CMOD_OPT {
            Ok((CustomMod::Opt(e), q))
        } else {
            Ok((CustomMod::Reqd(e), q))
        }
    }
}

fn parse_cmods(s: &[u8], p: usize) -> (r: Result<(Vec<CustomMod>, usize), Error>)
    ensures
        match r {
            Ok((m, q)) => cmods_at(s@, p) == Ok::<(Seq<CustomMod>, usize), Error>((m@, q)),
            Err(e) => cmods_at(s@, p) == Err::<(Seq<CustomMod>, usize), Error>(e),
        },
{
    let n = s.len();
    let mut out: Vec<CustomMod> = Vec::new();
    let mut pos = p;
    proof {
        if let Ok((rest, r)) = cmods_at(s@, p) {
            assert(out@.add(rest) =~= rest);
        }
    }
    while pos < n && (s[pos] == ELEMENT_CMOD_OPT || s[pos] == ELEMENT_CMOD_REQD)
        invariant
            s@.len() == n,
            p <= pos,
            cmods_at(s@, p) == (match cmods_at(s@, pos) {
                Ok((rest, r)) => Ok((out@.add(rest), r)),
                Err(e) => Err(e),
            }),
        decreases n - pos,
    {
        let (m, q) = match CustomMod::parse(s, pos) {
            Ok(x) => x,
            Err(e) => {
                assert(cmods_at(s@, pos) == Err::<(Seq<CustomMod>, usize), Error>(e));
                return Err(e);
            },
        };
        proof {
            lemma_encoded_bound(s@, (pos + 1) as usize);
            if let Ok((rest, r)) = cmods_at(s@, q) {
                assert(out@.add(seq![m].add(rest)) =~= out@.push(m).add(rest));
            }
        }
        out.push(m);
        pos = q;
    }
    proof {
        assert(out@.add(Seq::<CustomMod>::empty()) =~= out@);
    }
    Ok((out, pos))
}

proof fn lemma_encoded_bound(s: Seq<u8>, p: usize)
    ensures
        encoded_at(s, p) matches Ok((e, q)) ==> p < q <= s.len(),
{
}

impl Type {
    /// Reads a type at `p`.
    pub fn parse(s: &[u8], p: usize) -> (r: Result<(Type, usize), Error>)
        ensures
            match r {
                Ok((t, q)) => type_at(s@, p) == Ok::<(TypeView, usize), Error>((t@, q)),
                Err(e) => type_at(s@, p) == Err::<(TypeView, usize), Error>(e),
            },
        decreases s@.len() - p,
    {
        let n = s.len();
        if p >= n {
            return Err(Error::BadInput);
        }
        let b = s[p];
        match primitive_exec(b) {
            Some(t) => {
                return Ok((t, p + 1));
            },
            None => {},
        }
        if b == ELEMENT_SZARRAY {
            let (mods, q) = parse_cmods(s, p + 1)?;
            proof {
                lemma_cmods_bound(s@, (p + 1) as usize);
            }
            let (t, r) = Type::parse(s, q)?;
            let ghost tv = t@;
            let res = Type::SzArray { element_ty: Box::new(t), mods };
            assert(res@ == TypeView::SzArray { element_ty: Box::new(tv), mods: mods@ });
            Ok((res, r))
        } else if b == ELEMENT_VAR {
            let (count, q) = U::parse(s, p + 1)?;
            Ok((Type::Var { count }, q))
        } else {
            Err(Error::UnsupportedSignature)
        }
    }
}

impl Param {
    /// Reads a parameter at `p`.
    pub fn parse(s: &[u8], p: usize) -> (r: Result<(Param, usize), Error>)
        ensures
            match r {
                Ok((x, q)) => param_at(s@, p) == Ok::<(ParamView, usize), Error>((x@, q)),
                Err(e) => param_at(s@, p) == Err::<(ParamView, usize), Error>(e),
            },
    {
        let n = s.len();
        if p >= n {
            return Err(Error::BadInput);
        }
        if s[p] == ELEMENT_TYPED_BYREF {
            Ok((Param::TypedByref, p + 1))
        } else if s[p] == ELEMENT_BYREF {
            let (ty, q) = Type::parse(s, p + 1)?;
            Ok((Param::Type { byref: true, ty }, q))
        } else {
            let (ty, q) = Type::parse(s, p)?;
            Ok((Param::Type { byref: false, ty }, q))
        }
    }
}

impl RetType {
    /// Reads a return type at `p`.
    pub fn parse(s: &[u8], p: usize) -> (r: Result<(RetType, usize), Error>)
        ensures
            match r {
                Ok((x, q)) => ret_at(s@, p) == Ok::<(RetView, usize), Error>((x@, q)),
                Err(e) => ret_at(s@, p) == Err::<(RetView, usize), Error>(e),
            },
    {
        let n = s.len();
        if p >= n {
            return Err(Error::BadInput);
        }
        if s[p] == ELEMENT_VOID {
            Ok((RetType::Void, p + 1))
        } else if s[p] == ELEMENT_TYPED_BYREF {
            Ok((RetType::TypedByref, p + 1))
        } else if s[p] == ELEMENT_BYREF {
            let (ty, q) = Type::parse(s, p + 1)?;
            Ok((RetType::Type { byref: true, ty }, q))
        } else {
            let (ty, q) = Type::parse(s, p)?;
            Ok((RetType::Type { byref: false, ty }, q))
        }
    }
}

impl MethodDefSig {
    /// Reads a method signature at `p`.
    pub fn parse(s: &[u8], p: usize) -> (r: Result<(MethodDefSig, usize), Error>)
        ensures
            match r {
                Ok((x, q)) => sig_at(s@, p) == Ok::<(SigView, usize), Error>((x@, q)),
                Err(e) => sig_at(s@, p) == Err::<(SigView, usize), Error>(e),
            },
    {
        let n = s.len();
        if p >= n {
            return Err(Error::BadInput);
        }
        let calling_convension = MethodCallingConvension(s[p]);
        let (count, q) = U::parse(s, p + 1)?;
        let (ret, q2) = RetType::parse(s, q)?;
        let mut params: Vec<Param> = Vec::new();
        let mut pos = q2;
        let mut i: u32 = 0;
        proof {
            if let Ok((rest, r)) = params_at(s@, q2, count.0 as nat) {
                assert(params_view(params@).add(rest) =~= rest);
            }
        }
        while i < count.0
            invariant
                i <= count.0,
                p < s@.len() == n,
                calling_convension == MethodCallingConvension(s@[p as int]),
                u_at(s@, (p + 1) as usize) == Ok::<(U, usize), Error>((count, q)),
                ret_at(s@, q) == Ok::<(RetView, usize), Error>((ret@, q2)),
                params_at(s@, q2, count.0 as nat) == (match params_at(
                    s@,
                    pos,
                    (count.0 - i) as nat,
                ) {
                    Ok((rest, r)) => Ok((params_view(params@).add(rest), r)),
                    Err(e) => Err(e),
                }),
            decreases count.0 - i,
        {
            let (x, q3) = match Param::parse(s, pos) {
                Ok(v) => v,
                Err(e) => {
                    assert(params_at(s@, pos, (count.0 - i) as nat) == Err::<
                        (Seq<ParamView>, usize),
                        Error,
                    >(e));
                    return Err(e);
                },
            };
            proof {
                let ghost m = (count.0 - i - 1) as nat;
                assert(params_view(params@.push(x)) =~= params_view(params@).push(x@));
                if let Ok((rest, r)) = params_at(s@, q3, m) {
                    assert(params_view(params@).add(seq![x@].add(rest)) =~= params_view(
                        params@,
                    ).push(x@).add(rest));
                }
            }
            params.push(x);
            pos = q3;
            i = i + 1;
        }
        proof {
            assert(params_view(params@).add(Seq::<ParamView>::empty()) =~= params_view(params@));
        }
        Ok((MethodDefSig { calling_convension, ret, params }, pos))
    }
}

fn mods_same(a: &Vec<CustomMod>, b: &Vec<CustomMod>) -> (r: bool)
    ensures
        r == (a@ == b@),
{
    if a.len() != b.len() {
        return false;
    }
    let mut i: usize = 0;
    while i < a.len()
        invariant
            a@.len() == b@.len(),
            i <= a@.len(),
            forall|k: int| 0 <= k < i ==> a@[k] == b@[k],
        decreases a@.len() - i,
    {
        if a[i] != b[i] {
            return false;
        }
        i = i + 1;
    }
    assert(a@ =~= b@);
    true
}

impl Type {
    /// Whether two types have the same value.
    pub fn same(&self, other: &Type) -> (r: bool)
        ensures
            r == (self@ == other@),
        decreases self,
    {
        match self {
            Type::Boolean => matches!(other, Type::Boolean),
            Type::Char => matches!(other, Type::Char),
            Type::I1 => matches!(other, Type::I1),
            Type::U1 => matches!(other, Type::U1),
            Type::I2 => matches!(other, Type::I2),
            Type::U2 => matches!(other, Type::U2),
            Type::I4 => matches!(other, Type::I4),
            Type::U4 => matches!(other, Type::U4),
            Type::I8 => matches!(other, Type::I8),
            Type::U8 => matches!(other, Type::U8),
            Type::R4 => matches!(other, Type::R4),
            Type::R8 => matches!(other, Type::R8),
            Type::I => matches!(other, Type::I),
            Type::U => matches!(other, Type::U),
            Type::Object => matches!(other, Type::Object),
            Type::String => matches!(other, Type::String),
            Type::SzArray { element_ty, mods } => match other {
                Type::SzArray { element_ty: e2, mods: m2 } => {
                    let same_elem = (**element_ty).same(&**e2);
                    let same_mods = mods_same(mods, m2);
                    same_elem && same_mods
                },
                _ => false,
            },
            Type::Var { count } => match other {
                Type::Var { count: c2 } => *count == *c2,
                _ => false,
            },
        }
    }
}

impl Param {
    pub fn same(&self, other: &Param) -> (r: bool)
        ensures
            r == (self@ == other@),
    {
        match (self, other) {
            (Param::Type { byref: b1, ty: t1 }, Param::Type { byref: b2, ty: t2 }) => *b1 == *b2
                && t1.same(t2),
            (Param::TypedByref, Param::TypedByref) => true,
            _ => false,
        }
    }
}

impl RetType {
    pub fn same(&self, other: &RetType) -> (r: bool)
        ensures
            r == (self@ == other@),
    {
        match (self, other) {
            (RetType::Type { byref: b1, ty: t1 }, RetType::Type { byref: b2, ty: t2 }) => *b1
                == *b2 && t1.same(t2),
            (RetType::Void, RetType::Void) => true,
            (RetType::TypedByref, RetType::TypedByref) => true,
            _ => false,
        }
    }
}

impl MethodDefSig {
    /// Whether two signatures have the same value: the key of signature interning.
    pub fn same(&self, other: &MethodDefSig) -> (r: bool)
        ensures
            r == (self@ == other@),
    {
        if self.calling_convension != other.calling_convension || !self.ret.same(&other.ret)
            || self.params.len() != other.params.len() {
            proof {
                if self.params@.len() != other.params@.len() {
                    assert(params_view(self.params@).len() != params_view(other.params@).len());
                }
            }
            return false;
        }
        let mut i: usize = 0;
        while i < self.params.len()
            invariant
                self.params@.len() == other.params@.len(),
                i <= self.params@.len(),
                forall|k: int| 0 <= k < i ==> self.params@[k]@ == other.params@[k]@,
            decreases self.params@.len() - i,
        {
            if !self.params[i].same(&other.params[i]) {
                assert(params_view(self.params@)[i as int] != params_view(other.params@)[i as int]);
                return false;
            }
            i = i + 1;
        }
        assert(params_view(self.params@) =~= params_view(other.params@));
        true
    }
}

} // verus!
