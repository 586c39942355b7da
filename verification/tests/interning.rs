use spirv_sr::context::Context;
use spirv_sr::decoration::{equal_decorations, Decoration};
use spirv_sr::storage::Storage;
use spirv_sr::token::Token;
use spirv_sr::types::{equal_members, Constant, StructMember, Type, TypeEnum};

fn plain(ty: TypeEnum) -> Type {
    Type { ty, decorations: Vec::new() }
}

fn structure(ids: &[u32]) -> Type {
    plain(TypeEnum::Struct { field_types: ids.iter().map(|id| StructMember::new(*id)).collect() })
}

#[test]
fn tokens_wrap_their_ids() {
    let token: Token<Type> = Token::new(7);
    assert_eq!(token.id_ref(), 7);
    let copy = token;
    assert_eq!(copy, token);
    assert_eq!(token.clone().id_ref(), 7);
    assert_ne!(token, Token::new(8));
    let highest: Token<Constant> = Token::new(u32::MAX);
    assert_eq!(highest.id_ref(), u32::MAX);
}

#[test]
fn tokens_are_ordered_by_their_ids() {
    let low: Token<Type> = Token::new(3);
    let high: Token<Type> = Token::new(4);
    assert!(low < high);
    assert!(high > low);
    assert!(low <= Token::new(3));
    assert!(low >= Token::new(3));
    assert!(!(low < Token::new(3)));
    assert!(Token::<Type>::new(0) < Token::new(u32::MAX));
}

#[test]
fn equal_types_get_one_token() {
    let mut storage = Storage::new();
    let a = storage.fetch_or_append(plain(TypeEnum::Int { width: 32, signedness: 1 }));
    let b = storage.fetch_or_append(plain(TypeEnum::Int { width: 32, signedness: 1 }));
    assert_eq!(a, b);
    assert_eq!(a.id_ref(), 0);
    assert_eq!(storage.len(), 1);
}

#[test]
fn different_types_get_different_tokens() {
    let mut storage = Storage::new();
    let a = storage.fetch_or_append(plain(TypeEnum::Int { width: 32, signedness: 1 }));
    let c = storage.fetch_or_append(plain(TypeEnum::Int { width: 32, signedness: 0 }));
    let d = storage.fetch_or_append(plain(TypeEnum::Float { width: 32 }));
    assert_ne!(a, c);
    assert_ne!(a, d);
    assert_ne!(c, d);
    assert_eq!((a.id_ref(), c.id_ref(), d.id_ref()), (0, 1, 2));
    assert_eq!(storage.len(), 3);
    let again = storage.fetch_or_append(plain(TypeEnum::Int { width: 32, signedness: 0 }));
    assert_eq!(again, c);
    assert_eq!(storage.len(), 3);
}

#[test]
fn decorations_are_part_of_a_type() {
    let mut storage = Storage::new();
    let bare = storage.fetch_or_append(plain(TypeEnum::Bool));
    let decorated = storage.fetch_or_append(Type {
        ty: TypeEnum::Bool,
        decorations: vec![Decoration::RelaxedPrecision],
    });
    assert_ne!(bare, decorated);
    let same = storage.fetch_or_append(Type {
        ty: TypeEnum::Bool,
        decorations: vec![Decoration::RelaxedPrecision],
    });
    assert_eq!(same, decorated);
}

#[test]
fn structures_are_compared_member_by_member() {
    let mut storage = Storage::new();
    let a = storage.fetch_or_append(structure(&[1, 2]));
    let b = storage.fetch_or_append(structure(&[1, 2]));
    let c = storage.fetch_or_append(structure(&[2, 1]));
    let d = storage.fetch_or_append(structure(&[1, 2, 3]));
    let e = storage.fetch_or_append(structure(&[]));
    assert_eq!(a, b);
    assert_ne!(a, c);
    assert_ne!(a, d);
    assert_ne!(a, e);
    assert_eq!(storage.len(), 4);
    let decorated = plain(TypeEnum::Struct {
        field_types: vec![
            StructMember { token: Token::new(1), decorations: vec![Decoration::Offset(0)] },
            StructMember { token: Token::new(2), decorations: vec![Decoration::Offset(4)] },
        ],
    });
    let f = storage.fetch_or_append(decorated.clone());
    assert_ne!(a, f);
    assert_eq!(storage.fetch_or_append(decorated), f);
}

#[test]
fn opaque_types_are_compared_by_name() {
    let mut storage = Storage::new();
    let a = storage.fetch_or_append(plain(TypeEnum::Opaque { name: String::from("queue") }));
    let b = storage.fetch_or_append(plain(TypeEnum::Opaque { name: String::from("queue") }));
    let c = storage.fetch_or_append(plain(TypeEnum::Opaque { name: String::from("pipe") }));
    assert_eq!(a, b);
    assert_ne!(a, c);
}

#[test]
fn the_table_only_grows() {
    let mut storage = Storage::new();
    assert_eq!(storage.len(), 0);
    assert_eq!(storage.get(Token::new(0)), None);
    let void = storage.fetch_or_append(plain(TypeEnum::Void));
    let bool = storage.fetch_or_append(plain(TypeEnum::Bool));
    assert_eq!(storage.get(void), Some(&plain(TypeEnum::Void)));
    assert_eq!(storage.get(bool), Some(&plain(TypeEnum::Bool)));
    storage.fetch_or_append(plain(TypeEnum::Sampler));
    assert_eq!(storage.get(void), Some(&plain(TypeEnum::Void)));
    assert_eq!(storage.get(bool), Some(&plain(TypeEnum::Bool)));
    assert_eq!(storage.get(Token::new(3)), None);
}

#[test]
fn structural_equality_of_types() {
    let a = plain(TypeEnum::Vector { component_type: Token::new(1), component_count: 4 });
    let b = plain(TypeEnum::Vector { component_type: Token::new(1), component_count: 4 });
    let c = plain(TypeEnum::Vector { component_type: Token::new(2), component_count: 4 });
    let d = plain(TypeEnum::Matrix { column_type: Token::new(1), column_count: 4 });
    assert!(a.equals(&b));
    assert!(!a.equals(&c));
    assert!(!a.equals(&d));
    assert!(a.ty.equals(&b.ty));
    assert!(structure(&[1, 2]).equals(&structure(&[1, 2])));
    assert!(!structure(&[1, 2]).equals(&structure(&[1])));
    let image = |access_qualifier| {
        plain(TypeEnum::Image {
            sampled_type: Token::new(1),
            dim: 1,
            depth: 0,
            arrayed: 0,
            ms: 0,
            sampled: 1,
            image_format: 0,
            access_qualifier,
        })
    };
    assert!(image(None).equals(&image(None)));
    assert!(image(Some(0)).equals(&image(Some(0))));
    assert!(!image(Some(0)).equals(&image(None)));
    assert!(!image(Some(0)).equals(&image(Some(1))));
}

#[test]
fn structural_equality_of_decorations() {
    assert!(Decoration::Block.equals(&Decoration::Block));
    assert!(!Decoration::Block.equals(&Decoration::BufferBlock));
    assert!(Decoration::Location(3).equals(&Decoration::Location(3)));
    assert!(!Decoration::Location(3).equals(&Decoration::Location(4)));
    assert!(!Decoration::Location(3).equals(&Decoration::Binding(3)));
    let linkage = |name: &str, kind| Decoration::LinkageAttributes(String::from(name), kind);
    assert!(linkage("f", 0).equals(&linkage("f", 0)));
    assert!(!linkage("f", 0).equals(&linkage("g", 0)));
    assert!(!linkage("f", 0).equals(&linkage("f", 1)));
    assert!(!linkage("f", 0).equals(&Decoration::Block));
    assert!(equal_decorations(&vec![], &vec![]));
    assert!(equal_decorations(
        &vec![Decoration::Block, Decoration::Offset(4)],
        &vec![Decoration::Block, Decoration::Offset(4)]
    ));
    assert!(!equal_decorations(
        &vec![Decoration::Block, Decoration::Offset(4)],
        &vec![Decoration::Offset(4), Decoration::Block]
    ));
    assert!(!equal_decorations(&vec![Decoration::Block], &vec![]));
    let member = |id, decorations| StructMember { token: Token::new(id), decorations };
    assert!(member(1, vec![]).equals(&StructMember::new(1)));
    assert!(!member(1, vec![Decoration::Flat]).equals(&StructMember::new(1)));
    assert!(equal_members(&vec![member(1, vec![])], &vec![StructMember::new(1)]));
    assert!(!equal_members(&vec![member(1, vec![])], &vec![StructMember::new(2)]));
}

#[test]
fn a_context_interns_the_types_it_makes() {
    let mut context = Context::new();
    assert_eq!(context.num_types(), 0);
    let void = context.type_void();
    let int = context.type_int(32, 1);
    let float = context.type_float(32);
    let vector = context.type_vector(float, 4);
    assert_eq!(context.type_void(), void);
    assert_eq!(context.type_int(32, 1), int);
    assert_eq!(context.type_vector(float, 4), vector);
    assert_ne!(context.type_vector(float, 3), vector);
    assert_ne!(context.type_vector(int, 4), vector);
    assert_eq!(context.num_types(), 6);
    assert_eq!(context.get_type(void), Some(&plain(TypeEnum::Void)));
    assert_eq!(
        context.get_type(vector),
        Some(&plain(TypeEnum::Vector { component_type: float, component_count: 4 }))
    );
    assert_eq!(context.get_type(Token::new(6)), None);
}

#[test]
fn every_constructor_makes_its_type() {
    let mut context = Context::new();
    let element = context.type_bool();
    let made = vec![
        context.type_matrix(element, 2),
        context.type_image(element, 1, 0, 0, 0, 1, 0, None),
        context.type_sampler(),
        context.type_sampled_image(element),
        context.type_array(element, Token::new(9)),
        context.type_runtime_array(element),
        context.type_opaque(String::from("thing")),
        context.type_pointer(7, element),
        context.type_event(),
        context.type_device_event(),
        context.type_reserve_id(),
        context.type_queue(),
        context.type_pipe(0),
        context.type_forward_pointer(element, 7),
        context.type_pipe_storage(),
        context.type_named_barrier(),
    ];
    for (at, token) in made.iter().enumerate() {
        assert_eq!(token.id_ref() as usize, at + 1);
    }
    let entry = |token: &Token<Type>| context.get_type(*token).unwrap();
    assert!(entry(&element).is_bool_type());
    assert!(entry(&made[0]).is_matrix_type());
    assert!(entry(&made[1]).is_image_type());
    assert!(entry(&made[2]).is_sampler_type());
    assert!(entry(&made[3]).is_sampled_image_type());
    assert!(entry(&made[4]).is_array_type());
    assert!(entry(&made[5]).is_runtime_array_type());
    assert!(entry(&made[6]).is_opaque_type());
    assert!(entry(&made[7]).is_pointer_type());
    assert!(entry(&made[8]).is_event_type());
    assert!(entry(&made[9]).is_device_event_type());
    assert!(entry(&made[10]).is_reserve_id_type());
    assert!(entry(&made[11]).is_queue_type());
    assert!(entry(&made[12]).is_pipe_type());
    assert!(entry(&made[13]).is_forward_pointer_type());
    assert!(entry(&made[14]).is_pipe_storage_type());
    assert!(entry(&made[15]).is_named_barrier_type());
    assert!(!entry(&made[15]).is_void_type());
    assert!(!entry(&made[0]).is_vector_type());
    assert_eq!(
        entry(&made[4]),
        &plain(TypeEnum::Array { element_type: element, length: Token::new(9) })
    );
    assert_eq!(entry(&made[7]), &plain(TypeEnum::Pointer { storage_class: 7, ty: element }));
}

#[test]
fn interning_through_a_context() {
    let mut context = Context::new();
    let a = context.intern(structure(&[1]));
    let b = context.intern(structure(&[1]));
    let c = context.intern(structure(&[2]));
    assert_eq!(a, b);
    assert_ne!(a, c);
    assert!(context.get_type(a).unwrap().is_structure_type());
    assert!(plain(TypeEnum::Int { width: 8, signedness: 0 }).is_int_type());
    assert!(plain(TypeEnum::Float { width: 16 }).is_float_type());
    assert!(plain(TypeEnum::Void).is_void_type());
    assert!(plain(TypeEnum::Vector { component_type: a, component_count: 2 }).is_vector_type());
}
