use zk_cp_protocol::codec::MaterialSerde;
use zk_cp_protocol::error::ProtocolError;
use zk_cp_protocol::material::{Material, PrimeOrder, User};
use zk_cp_protocol::service::{DefaultMaterialGenerator, MaterialApplication, MemStorage};

#[test]
fn test_material_application() {
    let generator = DefaultMaterialGenerator;
    let storage = MemStorage::new();
    let mut application = MaterialApplication::new(generator, storage);

    let user = "test_user".into();
    let material = application.create_material(&user, None, None).unwrap();
    assert_eq!(material, application.get_material(&user).unwrap());
}

#[test]
fn test_material_application_existing() {
    let mut application = MaterialApplication::new(DefaultMaterialGenerator, MemStorage::new());
    let user = "test_user".into();
    let material = application.create_material(&user, None, None).unwrap();
    assert_eq!(material, application.get_material(&user).unwrap());

    let material = application.create_material(&user, None, None).unwrap();
    assert_eq!(material, application.get_material(&user).unwrap());
}

#[test]
fn test_material_application_different_users() {
    let mut application = MaterialApplication::new(DefaultMaterialGenerator, MemStorage::new());
    let user1 = "test_user1".into();
    let user2 = "test_user2".into();
    let material1 = application.create_material(&user1, None, None).unwrap();
    let material2 = application.create_material(&user2, None, None).unwrap();
    assert_eq!(material1, application.get_material(&user1).unwrap());
    assert_eq!(material2, application.get_material(&user2).unwrap());
}

#[test]
fn test_material_application_different_materials() {
    let mut application = MaterialApplication::new(DefaultMaterialGenerator, MemStorage::new());
    let user = "test_user".into();
    let material1 = application.create_material(&user, None, None).unwrap();
    let material2 = application.create_material(&user, None, None).unwrap();
    assert_eq!(material1, material2);
}

#[test]
fn test_material_application_get_non_existent() {
    let application = MaterialApplication::new_default();
    let user = "test_user".into();
    let material = application.get_material(&user);
    assert!(material.is_none());
}

#[test]
fn test_material_application_store() {
    let mut storage = MemStorage::new();
    let user: User = "test_user".into();
    let material = Material { g: 1, h: 2, p: 7, q: 11 };
    storage.store(User::from("test_user"), material);
    let application = MaterialApplication::new(DefaultMaterialGenerator, storage);

    let stored_material = application.get_material(&user).unwrap();
    assert_eq!(material, stored_material);
}

#[test]
fn test_material_application_store_existing() {
    let mut storage = MemStorage::new();
    let user: User = "test_user".into();
    let material_1 = Material { g: 1, h: 2, p: 11, q: 7 };
    let material_2 = Material { g: 3, h: 4, p: 11, q: 7 };
    storage.store(User::from("test_user"), material_1);
    storage.store(User::from("test_user"), material_2);
    let application = MaterialApplication::new(DefaultMaterialGenerator, storage);

    let stored_material = application.get_material(&user).unwrap();
    assert_eq!(material_2, stored_material);

    let stored_material = application.get_material(&user).unwrap();
    assert_eq!(material_2, stored_material);
}

#[test]
fn test_mem_storage() {
    let mut storage = MemStorage::new();
    let user = "test_user".into();
    let material = Material { g: 1, h: 2, q: 0, p: 0 };

    let stored_material = storage.get(&user);
    assert!(stored_material.is_none());

    storage.store(User::from("test_user".to_string()), material);
    let stored_material = storage.get(&user).unwrap();
    assert_eq!(material, stored_material);
}

#[test]
fn create_material_honours_hints_and_reports_errors() {
    let mut application = MaterialApplication::new_default();
    let user: User = "hinted".into();
    let material = application.create_material(&user, Some(PrimeOrder(11)), None).unwrap();
    assert_eq!((material.q, material.p), (11, 23));
    let bad: User = "bad".into();
    assert_eq!(
        application.create_material(&bad, Some(PrimeOrder(7)), Some(PrimeOrder(7))),
        Err(ProtocolError::InvalidParameters)
    );
    assert!(application.get_material(&bad).is_none());
    assert_eq!(
        application.create_material(&bad, Some(PrimeOrder(12)), Some(PrimeOrder(23))),
        Err(ProtocolError::InvalidParameters)
    );
    assert!(application.get_material(&bad).is_none());
    let generated = DefaultMaterialGenerator.generate(None, Some(PrimeOrder(47))).unwrap();
    assert_eq!((generated.q, generated.p), (23, 47));
}

#[test]
fn material_text_form_round_trips() {
    let material = Material { g: 255, h: 16, q: 0, p: u64::MAX };
    let text = MaterialSerde::from_material(&material, "user");
    assert_eq!(text.user, "user");
    assert_eq!(text.g, "ff");
    assert_eq!(text.h, "10");
    assert_eq!(text.q, "0");
    assert_eq!(text.p, "ffffffffffffffff");
    assert_eq!(text.to_material(), Ok(material));
}

#[test]
fn material_text_form_rejects_bad_values() {
    let mut text = MaterialSerde::from_material(&Material { g: 1, h: 2, q: 3, p: 4 }, "u");
    text.p = "10000000000000000".to_string();
    assert_eq!(text.to_material(), Err(ProtocolError::InvalidArgument));
    text.p = "".to_string();
    assert_eq!(text.to_material(), Err(ProtocolError::InvalidArgument));
    text.p = "_1".to_string();
    assert_eq!(text.to_material(), Err(ProtocolError::InvalidArgument));
    text.p = "++1".to_string();
    assert_eq!(text.to_material(), Err(ProtocolError::InvalidArgument));
    text.p = "Ab_c".to_string();
    assert_eq!(text.to_material().unwrap().p, 0xabc);
}
