use vstd::prelude::*;
use vstd::string::*;

verus! {

/// The primitive integer types that may cross the boundary by value.
#[derive(Clone, Copy, Debug, PartialEq, Eq, Structural)]
pub enum Prim {
    I8,
    U8,
    I16,
    U16,
    I32,
    U32,
    I64,
    U64,
    Isize,
    Usize,
}

/// The identifier of the first segment of a path type.
#[derive(Clone, Copy, Debug, PartialEq, Eq, Structural)]
pub enum PathIdent {
    Prim(Prim),
    NonNull,
    Option,
    Other,
}

/// The length of an array type as written: fixed when the code is compiled,
/// never passed at run time.
#[derive(Clone, Copy, Debug, PartialEq, Eq, Structural)]
pub enum ArrayLen {
    /// An integer literal.
    Literal(usize),
    /// A named constant or another constant expression.
    Constant,
}

/// What stands between the angle brackets after a path segment.
#[derive(Debug)]
pub enum TypeArgs {
    /// No angle-bracketed arguments at all.
    Absent,
    /// The first argument is a type.
    Type(Box<TypeShape>),
    /// The first argument is not a type (a lifetime, a constant, a binding).
    NonType,
}

/// The syntactic shape of a type as written in a declaration.
#[derive(Debug)]
pub enum TypeShape {
    Path { segments: usize, ident: PathIdent, args: TypeArgs },
    Ref { mutable: bool, elem: Box<TypeShape> },
    Slice { elem: Box<TypeShape> },
    Array { elem: Box<TypeShape>, len: ArrayLen },
    Ptr { mutable: bool, elem: Box<TypeShape> },
    Unit,
    Other,
}

/// One declared parameter.
#[derive(Debug)]
pub struct Param {
    /// The parameter is `self` in some form.
    pub receiver: bool,
    /// The parameter's pattern is a plain identifier.
    pub named: bool,
    /// The parameter carries the "expand" modifier.
    pub expand: bool,
    pub ty: TypeShape,
}

/// One declared function.
#[derive(Debug)]
pub struct FnDecl {
    pub params: Vec<Param>,
    /// The declared return type; `None` where none is written.
    pub ret: Option<TypeShape>,
    /// The declaration carries the structure-return modifier.
    pub sret: bool,
}

/// The category that a parameter falls in; it fixes its shape on both targets.
#[derive(Clone, Copy, Debug, PartialEq, Eq, Structural)]
pub enum ParamClass {
    Scalar(Prim),
    Handle,
    OptionalHandle,
    Slice { mutable: bool, elem: Prim },
    FixedArray { mutable: bool, elem: Prim, len: ArrayLen },
}

/// Why a parameter cannot be bound.
#[derive(Clone, Copy, Debug, PartialEq, Eq, Structural)]
pub enum ParamError {
    /// A method receiver: bindings are free functions.
    Receiver,
    /// The "expand" modifier on anything but a reference to a slice.
    ExpandRequiresSlice,
    /// A slice reference without the "expand" modifier.
    SliceNotExpanded,
    /// A slice or array parameter whose pattern is not a plain identifier.
    UnnamedParameter,
    /// A slice or array whose element type has no hosted array type.
    UnsupportedElement,
    /// A path type written with more than one segment.
    QualifiedPath,
    /// Any other type.
    UnsupportedType,
}

/// Why a declaration cannot be bound.
#[derive(Clone, Copy, Debug, PartialEq, Eq, Structural)]
pub enum BindingError {
    Param { position: usize, reason: ParamError },
    /// The structure-return modifier on a function without a return value.
    SretWithoutReturn,
    /// A return type with no hosted type code.
    UnsupportedReturn,
}

/// The one-letter type codes of the hosted runtime, and the object code.
#[derive(Clone, Copy, Debug, PartialEq, Eq, Structural)]
pub enum TypeCode {
    Byte,
    Short,
    Int,
    Long,
    Object,
    Void,
}

/// Everything the two emitters need, computed once from a declaration.
#[derive(Debug)]
pub struct BindingPlan {
    pub params: Vec<ParamClass>,
    pub sret: bool,
    pub ret: TypeCode,
    pub signature: String,
}

/// The width in bytes of a primitive; pointer-sized types count as 8.
pub open spec fn prim_width(p: Prim) -> nat {
    match p {
        Prim::I8 | Prim::U8 => 1,
        Prim::I16 | Prim::U16 => 2,
        Prim::I32 | Prim::U32 => 4,
        _ => 8,
    }
}

/// The hosted type code of a primitive, by width.
pub open spec fn prim_code(p: Prim) -> TypeCode {
    if prim_width(p) == 1 {
        TypeCode::Byte
    } else if prim_width(p) == 2 {
        TypeCode::Short
    } else if prim_width(p) == 4 {
        TypeCode::Int
    } else {
        TypeCode::Long
    }
}

/// The element type of a slice or array, or the reason it is refused.
pub open spec fn element_of(t: TypeShape) -> Result<Prim, ParamError> {
    match t {
        TypeShape::Path { segments, ident, .. } => if segments != 1 {
            Err(ParamError::QualifiedPath)
        } else {
            match ident {
                PathIdent::Prim(p) => Ok(p),
                _ => Err(ParamError::UnsupportedElement),
            }
        },
        _ => Err(ParamError::UnsupportedElement),
    }
}

/// The argument of `Option<...>` that makes it an optional handle.
pub open spec fn is_optional_target(args: TypeArgs) -> bool {
    match args {
        TypeArgs::Type(t) => match *t {
            TypeShape::Path { segments, ident, .. } => segments == 1 && ident == PathIdent::NonNull,
            TypeShape::Ref { .. } => true,
            _ => false,
        },
        _ => false,
    }
}

/// The classification rules for one parameter.
pub open spec fn classify_spec(p: Param) -> Result<ParamClass, ParamError> {
    if p.receiver {
        Err(ParamError::Receiver)
    } else {
        match p.ty {
            TypeShape::Ref { mutable, elem } => match *elem {
                TypeShape::Slice { elem: e } => if !p.expand {
                    Err(ParamError::SliceNotExpanded)
                } else if !p.named {
                    Err(ParamError::UnnamedParameter)
                } else {
                    match element_of(*e) {
                        Ok(prim) => Ok(ParamClass::Slice { mutable, elem: prim }),
                        Err(r) => Err(r),
                    }
                },
                TypeShape::Array { elem: e, len } => if p.expand {
                    Err(ParamError::ExpandRequiresSlice)
                } else if !p.named {
                    Err(ParamError::UnnamedParameter)
                } else {
                    match element_of(*e) {
                        Ok(prim) => Ok(ParamClass::FixedArray { mutable, elem: prim, len }),
                        Err(r) => Err(r),
                    }
                },
                _ => if p.expand {
                    Err(ParamError::ExpandRequiresSlice)
                } else {
                    Ok(ParamClass::Handle)
                },
            },
            _ => if p.expand {
                Err(ParamError::ExpandRequiresSlice)
            } else {
                match p.ty {
                    TypeShape::Ptr { .. } => Ok(ParamClass::Handle),
                    TypeShape::Path { segments, ident, args } => if segments != 1 {
                        Err(ParamError::QualifiedPath)
                    } else {
                        match ident {
                            PathIdent::Prim(prim) => Ok(ParamClass::Scalar(prim)),
                            PathIdent::NonNull => Ok(ParamClass::Handle),
                            PathIdent::Option => if is_optional_target(args) {
                                Ok(ParamClass::OptionalHandle)
                            } else {
                                Err(ParamError::UnsupportedType)
                            },
                            PathIdent::Other => Err(ParamError::UnsupportedType),
                        }
                    },
                    _ => Err(ParamError::UnsupportedType),
                }
            },
        }
    }
}

/// The hosted code of a declared return type, without structure return.
pub open spec fn return_code_spec(ret: Option<TypeShape>) -> Result<TypeCode, BindingError> {
    match ret {
        None => Ok(TypeCode::Void),
        Some(TypeShape::Unit) => Ok(TypeCode::Void),
        Some(TypeShape::Ptr { .. }) => Ok(TypeCode::Long),
        Some(TypeShape::Path { ident, .. }) => match ident {
            PathIdent::Option | PathIdent::NonNull => Ok(TypeCode::Long),
            PathIdent::Prim(p) => Ok(prim_code(p)),
            PathIdent::Other => Err(BindingError::UnsupportedReturn),
        },
        _ => Err(BindingError::UnsupportedReturn),
    }
}

/// The text of a type code inside a descriptor signature.
pub open spec fn code_text(c: TypeCode) -> Seq<char> {
    match c {
        TypeCode::Byte => "B"@,
        TypeCode::Short => "S"@,
        TypeCode::Int => "I"@,
        TypeCode::Long => "J"@,
        TypeCode::Object => "Ljava/lang/Object;"@,
        TypeCode::Void => "V"@,
    }
}

/// The codes that one parameter contributes: an array object, followed by
/// its length for a slice; the code of its own type otherwise.
pub open spec fn param_text(c: ParamClass) -> Seq<char> {
    match c {
        ParamClass::Scalar(p) => code_text(prim_code(p)),
        ParamClass::Handle | ParamClass::OptionalHandle => code_text(TypeCode::Long),
        ParamClass::Slice { .. } => code_text(TypeCode::Object) + code_text(TypeCode::Int),
        ParamClass::FixedArray { .. } => code_text(TypeCode::Object),
    }
}

/// The codes of a run of parameters, in order.
pub open spec fn params_text(cs: Seq<ParamClass>) -> Seq<char>
    decreases cs.len(),
{
    if cs.len() == 0 {
        Seq::empty()
    } else {
        params_text(cs.drop_last()) + param_text(cs.last())
    }
}

/// The descriptor signature: parenthesised parameter codes, a leading object
/// code under structure return, then the return code.
pub open spec fn signature_text(cs: Seq<ParamClass>, sret: bool, ret: TypeCode) -> Seq<char> {
    "("@ + (if sret {
        code_text(TypeCode::Object)
    } else {
        Seq::empty()
    }) + params_text(cs) + ")"@ + code_text(ret)
}

/// Whether the structure-return modifier is misused.
pub open spec fn sret_misused(d: FnDecl) -> bool {
    d.sret && match d.ret {
        None => true,
        Some(TypeShape::Unit) => true,
        _ => false,
    }
}

/// Every parameter before position `n` has a category.
pub open spec fn all_classified_before(ps: Seq<Param>, n: int) -> bool {
    forall|i: int| 0 <= i < n ==> (#[trigger] classify_spec(ps[i])) is Ok
}

pub fn prim_code_of(p: Prim) -> (r: TypeCode)
    ensures
        r == prim_code(p),
{
    match p {
        Prim::I8 | Prim::U8 => TypeCode::Byte,
        Prim::I16 | Prim::U16 => TypeCode::Short,
        Prim::I32 | Prim::U32 => TypeCode::Int,
        _ => TypeCode::Long,
    }
}

fn element(t: &TypeShape) -> (r: Result<Prim, ParamError>)
    ensures
        r == element_of(*t),
{
    match t {
        TypeShape::Path { segments, ident, .. } => {
            if *segments != 1 {
                Err(ParamError::QualifiedPath)
            } else {
                match ident {
                    PathIdent::Prim(p) => Ok(*p),
                    _ => Err(ParamError::UnsupportedElement),
                }
            }
        },
        _ => Err(ParamError::UnsupportedElement),
    }
}

fn optional_target(args: &TypeArgs) -> (r: bool)
    ensures
        r == is_optional_target(*args),
{
    match args {
        TypeArgs::Type(t) => match &**t {
            TypeShape::Path { segments, ident, .. } => *segments == 1 && *ident == PathIdent::NonNull,
            TypeShape::Ref { .. } => true,
            _ => false,
        },
        _ => false,
    }
}

/// Assigns a parameter its category, or says why it has none.
pub fn classify_param(p: &Param) -> (r: Result<ParamClass, ParamError>)
    ensures
        r == classify_spec(*p),
{
    if p.receiver {
        return Err(ParamError::Receiver);
    }
    match &p.ty {
        TypeShape::Ref { mutable, elem } => match &**elem {
            TypeShape::Slice { elem: e } => {
                if !p.expand {
                    Err(ParamError::SliceNotExpanded)
                } else if !p.named {
                    Err(ParamError::UnnamedParameter)
                } else {
                    match element(&**e) {
                        Ok(prim) => Ok(ParamClass::Slice { mutable: *mutable, elem: prim }),
                        Err(r) => Err(r),
                    }
                }
            },
            TypeShape::Array { elem: e, len } => {
                if p.expand {
                    Err(ParamError::ExpandRequiresSlice)
                } else if !p.named {
                    Err(ParamError::UnnamedParameter)
                } else {
                    match element(&**e) {
                        Ok(prim) => Ok(ParamClass::FixedArray { mutable: *mutable, elem: prim, len: *len }),
                        Err(r) => Err(r),
                    }
                }
            },
            _ => {
                if p.expand {
                    Err(ParamError::ExpandRequiresSlice)
                } else {
                    Ok(ParamClass::Handle)
                }
            },
        },
        _ => {
            if p.expand {
                return Err(ParamError::ExpandRequiresSlice);
            }
            match &p.ty {
                TypeShape::Ptr { .. } => Ok(ParamClass::Handle),
                TypeShape::Path { segments, ident, args } => {
                    if *segments != 1 {
                        Err(ParamError::QualifiedPath)
                    } else {
                        match ident {
                            PathIdent::Prim(prim) => Ok(ParamClass::Scalar(*prim)),
                            PathIdent::NonNull => Ok(ParamClass::Handle),
                            PathIdent::Option => {
                                if optional_target(args) {
                                    Ok(ParamClass::OptionalHandle)
                                } else {
                                    Err(ParamError::UnsupportedType)
                                }
                            },
                            PathIdent::Other => Err(ParamError::UnsupportedType),
                        }
                    }
                },
                _ => Err(ParamError::UnsupportedType),
            }
        },
    }
}

/// The hosted code of a declared return type, without structure return.
pub fn return_code(ret: &Option<TypeShape>) -> (r: Result<TypeCode, BindingError>)
    ensures
        r == return_code_spec(*ret),
{
    match ret {
        None => Ok(TypeCode::Void),
        Some(TypeShape::Unit) => Ok(TypeCode::Void),
        Some(TypeShape::Ptr { .. }) => Ok(TypeCode::Long),
        Some(TypeShape::Path { ident, .. }) => match ident {
            PathIdent::Option | PathIdent::NonNull => Ok(TypeCode::Long),
            PathIdent::Prim(p) => Ok(prim_code_of(*p)),
            PathIdent::Other => Err(BindingError::UnsupportedReturn),
        },
        _ => Err(BindingError::UnsupportedReturn),
    }
}

fn push_code(s: &mut String, c: TypeCode)
    ensures
        final(s)@ == old(s)@ + code_text(c),
{
    match c {
        TypeCode::Byte => s.append("B"),
        TypeCode::Short => s.append("S"),
        TypeCode::Int => s.append("I"),
        TypeCode::Long => s.append("J"),
        TypeCode::Object => s.append("Ljava/lang/Object;"),
        TypeCode::Void => s.append("V"),
    }
}

fn push_param(s: &mut String, c: ParamClass)
    ensures
        final(s)@ == old(s)@ + param_text(c),
{
    match c {
        ParamClass::Scalar(p) => push_code(s, prim_code_of(p)),
        ParamClass::Handle | ParamClass::OptionalHandle => push_code(s, TypeCode::Long),
        ParamClass::Slice { .. } => {
            push_code(s, TypeCode::Object);
            push_code(s, TypeCode::Int);
            assert(final(s)@ == old(s)@ + param_text(c));
        },
        ParamClass::FixedArray { .. } => push_code(s, TypeCode::Object),
    }
}

/// The descriptor signature of a classified declaration.
pub fn descriptor_signature(params: &Vec<ParamClass>, sret: bool, ret: TypeCode) -> (r: String)
    ensures
        r@ == signature_text(params@, sret, ret),
{
    let mut s = String::new();
    s.append("(");
    if sret {
        push_code(&mut s, TypeCode::Object);
    }
    let ghost head = s@;
    let mut i: usize = 0;
    while i < params.len()
        invariant
            i <= params@.len(),
            s@ == head + params_text(params@.subrange(0, i as int)),
        decreases params@.len() - i,
    {
        let ghost before = s@;
        push_param(&mut s, params[i]);
        proof {
            let next = params@.subrange(0, i as int + 1);
            assert(next.drop_last() =~= params@.subrange(0, i as int));
            assert(next.last() == params@[i as int]);
            assert(s@ =~= head + params_text(next));
        }
        i += 1;
    }
    assert(params@.subrange(0, params@.len() as int) =~= params@);
    s.append(")");
    push_code(&mut s, ret);
    proof {
        let mid = if sret {
            code_text(TypeCode::Object)
        } else {
            Seq::<char>::empty()
        };
        assert(head =~= "("@ + mid);
        assert(s@ =~= signature_text(params@, sret, ret));
    }
    s
}

/// Classifies every parameter of a declaration and derives the return code and
/// the descriptor signature. Under structure return the hosted method returns
/// nothing and takes the result buffer as a leading object parameter.
pub fn plan_binding(decl: &FnDecl) -> (r: Result<BindingPlan, BindingError>)
    ensures
        sret_misused(*decl) ==> r == Err::<BindingPlan, BindingError>(
            BindingError::SretWithoutReturn,
        ),
        !sret_misused(*decl) ==> match r {
            Ok(plan) => {
                &&& plan.params@.len() == decl.params@.len()
                &&& forall|i: int|
                    0 <= i < decl.params@.len() ==> Ok::<ParamClass, ParamError>(
                        #[trigger] plan.params@[i],
                    ) == classify_spec(decl.params@[i])
                &&& plan.sret == decl.sret
                &&& decl.sret ==> plan.ret == TypeCode::Void
                &&& !decl.sret ==> Ok::<TypeCode, BindingError>(plan.ret) == return_code_spec(
                    decl.ret,
                )
                &&& plan.signature@ == signature_text(plan.params@, plan.sret, plan.ret)
            },
            Err(BindingError::Param { position, reason }) => {
                &&& position < decl.params@.len()
                &&& all_classified_before(decl.params@, position as int)
                &&& classify_spec(decl.params@[position as int]) == Err::<ParamClass, ParamError>(
                    reason,
                )
            },
            Err(e) => {
                &&& e == BindingError::UnsupportedReturn
                &&& !decl.sret
                &&& forall|i: int|
                    0 <= i < decl.params@.len() ==> (#[trigger] classify_spec(
                        decl.params@[i],
                    )) is Ok
                &&& return_code_spec(decl.ret) is Err
            },
        },
{
    if decl.sret {
        match &decl.ret {
            None => return Err(BindingError::SretWithoutReturn),
            Some(TypeShape::Unit) => return Err(BindingError::SretWithoutReturn),
            _ => {},
        }
    }
    let mut params: Vec<ParamClass> = Vec::new();
    let mut i: usize = 0;
    while i < decl.params.len()
        invariant
            !sret_misused(*decl),
            i <= decl.params@.len(),
            params@.len() == i,
            forall|j: int|
                0 <= j < i ==> Ok::<ParamClass, ParamError>(#[trigger] params@[j]) == classify_spec(
                    decl.params@[j],
                ),
        decreases decl.params@.len() - i,
    {
        match classify_param(&decl.params[i]) {
            Ok(c) => params.push(c),
            Err(reason) => {
                assert forall|j: int| 0 <= j < i implies (#[trigger] classify_spec(
                    decl.params@[j],
                )) is Ok by {
                    assert(Ok::<ParamClass, ParamError>(params@[j]) == classify_spec(
                        decl.params@[j],
                    ));
                }
                return Err(BindingError::Param { position: i, reason });
            },
        }
        i += 1;
    }
    let ret = if decl.sret {
        TypeCode::Void
    } else {
        match return_code(&decl.ret) {
            Ok(c) => c,
            Err(e) => {
                assert forall|j: int| 0 <= j < decl.params@.len() implies (#[trigger] classify_spec(
                    decl.params@[j],
                )) is Ok by {
                    assert(Ok::<ParamClass, ParamError>(params@[j]) == classify_spec(
                        decl.params@[j],
                    ));
                }
                return Err(e);
            },
        }
    };
    let signature = descriptor_signature(&params, decl.sret, ret);
    Ok(BindingPlan { params, sret: decl.sret, ret, signature })
}

} // verus!
