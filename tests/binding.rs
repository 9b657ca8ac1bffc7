use jni_bindgen::binding::{
    classify_param, descriptor_signature, ArrayLen, plan_binding, return_code, BindingError, FnDecl, Param,
    ParamClass, ParamError, PathIdent, Prim, TypeArgs, TypeCode, TypeShape,
};
use jni_bindgen::emit::{hosted_item_name, layout, FlatParam, HostedParam, PostStep, PreStep};

fn path(ident: PathIdent) -> TypeShape {
    TypeShape::Path { segments: 1, ident, args: TypeArgs::Absent }
}

fn prim(p: Prim) -> TypeShape {
    path(PathIdent::Prim(p))
}

fn named_ref(mutable: bool, elem: TypeShape) -> TypeShape {
    TypeShape::Ref { mutable, elem: Box::new(elem) }
}

fn slice_of(p: Prim) -> TypeShape {
    named_ref(false, TypeShape::Slice { elem: Box::new(prim(p)) })
}

fn array_of(mutable: bool, p: Prim, len: usize) -> TypeShape {
    named_ref(mutable, TypeShape::Array { elem: Box::new(prim(p)), len: ArrayLen::Literal(len) })
}

fn param(ty: TypeShape) -> Param {
    Param { receiver: false, named: true, expand: false, ty }
}

fn expanded(ty: TypeShape) -> Param {
    Param { receiver: false, named: true, expand: true, ty }
}

fn object_ref() -> TypeShape {
    named_ref(false, path(PathIdent::Other))
}

fn optional(inner: TypeShape) -> TypeShape {
    TypeShape::Path { segments: 1, ident: PathIdent::Option, args: TypeArgs::Type(Box::new(inner)) }
}

#[test]
fn verify_binding_signature() {
    let decl = FnDecl {
        params: vec![param(object_ref()), expanded(slice_of(Prim::U8)), param(object_ref())],
        ret: Some(path(PathIdent::Other)),
        sret: true,
    };
    let plan = plan_binding(&decl).unwrap();
    assert_eq!(
        plan.params,
        vec![
            ParamClass::Handle,
            ParamClass::Slice { mutable: false, elem: Prim::U8 },
            ParamClass::Handle
        ]
    );
    assert_eq!(plan.ret, TypeCode::Void);
    assert!(plan.sret);
    assert_eq!(plan.signature, "(Ljava/lang/Object;JLjava/lang/Object;IJ)V");
}

#[test]
fn fixed_array_output_signature() {
    let decl = FnDecl {
        params: vec![param(object_ref()), param(array_of(true, Prim::U8, 32))],
        ret: None,
        sret: false,
    };
    let plan = plan_binding(&decl).unwrap();
    assert_eq!(plan.signature, "(JLjava/lang/Object;)V");
    let l = layout(&plan.params, plan.sret);
    assert_eq!(l.flat, vec![FlatParam::Direct { index: 0 }, FlatParam::Direct { index: 1 }]);
    assert_eq!(
        l.hosted,
        vec![
            HostedParam::Value { index: 0, code: TypeCode::Long },
            HostedParam::ArrayObject { index: 1, kind: TypeCode::Byte }
        ]
    );
    assert_eq!(l.pre, vec![PreStep::ZeroFixed { index: 1, elem: Prim::U8, len: ArrayLen::Literal(32) }]);
    assert_eq!(l.post, vec![PostStep::CopyBack { index: 1, elem: Prim::U8, len: ArrayLen::Literal(32) }]);
}

#[test]
fn read_only_fixed_array_is_copied_in() {
    let decl = FnDecl {
        params: vec![param(array_of(false, Prim::U8, 64))],
        ret: Some(path(PathIdent::NonNull)),
        sret: false,
    };
    let plan = plan_binding(&decl).unwrap();
    assert_eq!(plan.signature, "(Ljava/lang/Object;)J");
    let l = layout(&plan.params, plan.sret);
    assert_eq!(l.pre, vec![PreStep::CopyFixed { index: 0, elem: Prim::U8, len: ArrayLen::Literal(64) }]);
    assert!(l.post.is_empty());
}

#[test]
fn scalar_codes_by_width() {
    let decl = FnDecl {
        params: vec![
            param(prim(Prim::I8)),
            param(prim(Prim::U16)),
            param(prim(Prim::U32)),
            param(prim(Prim::I64)),
            param(prim(Prim::Usize)),
        ],
        ret: Some(prim(Prim::U32)),
        sret: false,
    };
    let plan = plan_binding(&decl).unwrap();
    assert_eq!(plan.signature, "(BSIJJ)I");
}

#[test]
fn structure_return_layout_prepends_result() {
    let decl = FnDecl {
        params: vec![prim_param_u32(), expanded(slice_of(Prim::U8))],
        ret: Some(path(PathIdent::Other)),
        sret: true,
    };
    let plan = plan_binding(&decl).unwrap();
    assert_eq!(plan.signature, "(Ljava/lang/Object;ILjava/lang/Object;I)V");
    let l = layout(&plan.params, plan.sret);
    assert_eq!(
        l.flat,
        vec![
            FlatParam::ResultSlot,
            FlatParam::Direct { index: 0 },
            FlatParam::SlicePtr { index: 1, mutable: false, elem: Prim::U8 },
            FlatParam::SliceLen { index: 1 }
        ]
    );
    assert_eq!(
        l.hosted,
        vec![
            HostedParam::ResultArray,
            HostedParam::Value { index: 0, code: TypeCode::Int },
            HostedParam::ArrayObject { index: 1, kind: TypeCode::Byte },
            HostedParam::Length { index: 1 }
        ]
    );
    assert_eq!(l.pre, vec![PreStep::CopyRegion { index: 1, elem: Prim::U8 }]);
}

fn prim_param_u32() -> Param {
    param(prim(Prim::U32))
}

#[test]
fn optional_handles_are_longs() {
    assert_eq!(classify_param(&param(optional(path(PathIdent::NonNull)))), Ok(ParamClass::OptionalHandle));
    assert_eq!(classify_param(&param(optional(object_ref()))), Ok(ParamClass::OptionalHandle));
    assert_eq!(
        classify_param(&param(optional(prim(Prim::U32)))),
        Err(ParamError::UnsupportedType)
    );
    let no_args = TypeShape::Path { segments: 1, ident: PathIdent::Option, args: TypeArgs::Absent };
    assert_eq!(classify_param(&param(no_args)), Err(ParamError::UnsupportedType));
    let lifetime = TypeShape::Path { segments: 1, ident: PathIdent::Option, args: TypeArgs::NonType };
    assert_eq!(classify_param(&param(lifetime)), Err(ParamError::UnsupportedType));
}

#[test]
fn pointers_and_handles() {
    let ptr = TypeShape::Ptr { mutable: true, elem: Box::new(prim(Prim::U8)) };
    assert_eq!(classify_param(&param(ptr)), Ok(ParamClass::Handle));
    assert_eq!(classify_param(&param(path(PathIdent::NonNull))), Ok(ParamClass::Handle));
    assert_eq!(classify_param(&param(object_ref())), Ok(ParamClass::Handle));
}

#[test]
fn expand_on_non_slice_is_refused() {
    let decl = FnDecl {
        params: vec![param(object_ref()), expanded(object_ref())],
        ret: None,
        sret: false,
    };
    assert_eq!(
        plan_binding(&decl).unwrap_err(),
        BindingError::Param { position: 1, reason: ParamError::ExpandRequiresSlice }
    );
    assert_eq!(
        classify_param(&expanded(prim(Prim::U8))),
        Err(ParamError::ExpandRequiresSlice)
    );
    assert_eq!(
        classify_param(&expanded(array_of(false, Prim::U8, 4))),
        Err(ParamError::ExpandRequiresSlice)
    );
}

#[test]
fn slice_without_expand_is_refused() {
    assert_eq!(classify_param(&param(slice_of(Prim::U8))), Err(ParamError::SliceNotExpanded));
}

#[test]
fn sret_needs_return_value() {
    let decl = FnDecl { params: vec![], ret: None, sret: true };
    assert_eq!(plan_binding(&decl).unwrap_err(), BindingError::SretWithoutReturn);
    let unit = FnDecl { params: vec![], ret: Some(TypeShape::Unit), sret: true };
    assert_eq!(plan_binding(&unit).unwrap_err(), BindingError::SretWithoutReturn);
}

#[test]
fn receiver_is_refused() {
    let decl = FnDecl {
        params: vec![Param { receiver: true, named: false, expand: false, ty: TypeShape::Other }],
        ret: None,
        sret: false,
    };
    assert_eq!(
        plan_binding(&decl).unwrap_err(),
        BindingError::Param { position: 0, reason: ParamError::Receiver }
    );
}

#[test]
fn unnamed_slice_is_refused() {
    let p = Param { receiver: false, named: false, expand: true, ty: slice_of(Prim::U8) };
    assert_eq!(classify_param(&p), Err(ParamError::UnnamedParameter));
}

#[test]
fn fixed_arrays_of_every_width() {
    assert_eq!(
        classify_param(&param(array_of(true, Prim::U64, 4))),
        Ok(ParamClass::FixedArray { mutable: true, elem: Prim::U64, len: ArrayLen::Literal(4) })
    );
    let decl = FnDecl {
        params: vec![param(array_of(false, Prim::Usize, 2)), param(array_of(true, Prim::I32, 5))],
        ret: None,
        sret: false,
    };
    let plan = plan_binding(&decl).unwrap();
    assert_eq!(plan.signature, "(Ljava/lang/Object;Ljava/lang/Object;)V");
    let l = layout(&plan.params, plan.sret);
    assert_eq!(
        l.hosted,
        vec![
            HostedParam::ArrayObject { index: 0, kind: TypeCode::Long },
            HostedParam::ArrayObject { index: 1, kind: TypeCode::Int }
        ]
    );
    assert_eq!(
        classify_param(&param(array_of(true, Prim::U16, 3))),
        Ok(ParamClass::FixedArray { mutable: true, elem: Prim::U16, len: ArrayLen::Literal(3) })
    );
    let nested = named_ref(false, TypeShape::Slice { elem: Box::new(path(PathIdent::Other)) });
    assert_eq!(classify_param(&expanded(nested)), Err(ParamError::UnsupportedElement));
}

#[test]
fn qualified_paths_are_refused() {
    let qualified = TypeShape::Path {
        segments: 3,
        ident: PathIdent::Prim(Prim::U32),
        args: TypeArgs::Absent,
    };
    let decl = FnDecl {
        params: vec![param(prim(Prim::U8)), param(prim(Prim::U8)), param(qualified)],
        ret: None,
        sret: false,
    };
    assert_eq!(
        plan_binding(&decl).unwrap_err(),
        BindingError::Param { position: 2, reason: ParamError::QualifiedPath }
    );
    let slice_qualified = named_ref(
        false,
        TypeShape::Slice {
            elem: Box::new(TypeShape::Path {
                segments: 2,
                ident: PathIdent::Prim(Prim::U8),
                args: TypeArgs::Absent,
            }),
        },
    );
    assert_eq!(classify_param(&expanded(slice_qualified)), Err(ParamError::QualifiedPath));
}

#[test]
fn other_types_are_refused() {
    assert_eq!(classify_param(&param(TypeShape::Other)), Err(ParamError::UnsupportedType));
    assert_eq!(classify_param(&param(path(PathIdent::Other))), Err(ParamError::UnsupportedType));
}

#[test]
fn unsupported_return_is_refused() {
    let decl = FnDecl { params: vec![param(object_ref())], ret: Some(path(PathIdent::Other)), sret: false };
    assert_eq!(plan_binding(&decl).unwrap_err(), BindingError::UnsupportedReturn);
    assert_eq!(return_code(&Some(TypeShape::Other)), Err(BindingError::UnsupportedReturn));
}

#[test]
fn return_codes() {
    assert_eq!(return_code(&None), Ok(TypeCode::Void));
    assert_eq!(return_code(&Some(TypeShape::Unit)), Ok(TypeCode::Void));
    assert_eq!(return_code(&Some(prim(Prim::U8))), Ok(TypeCode::Byte));
    assert_eq!(return_code(&Some(prim(Prim::I16))), Ok(TypeCode::Short));
    assert_eq!(return_code(&Some(prim(Prim::U64))), Ok(TypeCode::Long));
    assert_eq!(return_code(&Some(optional(path(PathIdent::NonNull)))), Ok(TypeCode::Long));
    let ptr = TypeShape::Ptr { mutable: true, elem: Box::new(prim(Prim::U8)) };
    assert_eq!(return_code(&Some(ptr)), Ok(TypeCode::Long));
}

#[test]
fn empty_parameter_list() {
    assert_eq!(descriptor_signature(&vec![], false, TypeCode::Long), "()J");
    assert_eq!(descriptor_signature(&vec![], true, TypeCode::Void), "(Ljava/lang/Object;)V");
}

#[test]
fn generation_is_deterministic() {
    let make = || FnDecl {
        params: vec![expanded(slice_of(Prim::U8)), param(array_of(false, Prim::U8, 32))],
        ret: Some(path(PathIdent::Other)),
        sret: true,
    };
    let a = plan_binding(&make()).unwrap();
    let b = plan_binding(&make()).unwrap();
    assert_eq!(a.params, b.params);
    assert_eq!(a.signature, b.signature);
    assert_eq!(a.signature, "(Ljava/lang/Object;Ljava/lang/Object;ILjava/lang/Object;)V");
}

#[test]
fn hosted_names_are_upper_case() {
    assert_eq!(
        hosted_item_name(b"vodozemac_sas_mac_free"),
        b"VODOZEMAC_SAS_MAC_FREE_JNI".to_vec()
    );
    assert_eq!(hosted_item_name(b"version_1"), b"VERSION_1_JNI".to_vec());
    assert_eq!(hosted_item_name(b""), b"_JNI".to_vec());
}

#[test]
fn named_array_length_is_kept() {
    let ty = named_ref(false, TypeShape::Array { elem: Box::new(prim(Prim::U8)), len: ArrayLen::Constant });
    assert_eq!(
        classify_param(&param(ty)),
        Ok(ParamClass::FixedArray { mutable: false, elem: Prim::U8, len: ArrayLen::Constant })
    );
}
