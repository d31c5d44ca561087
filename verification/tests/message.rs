use tmq::MessageSet;

type Carried = MessageSet<&'static str, Vec<u8>>;

fn meta() -> Carried {
    MessageSet::Meta("schema")
}

fn data() -> Carried {
    MessageSet::Data(vec![1, 2])
}

fn both() -> Carried {
    MessageSet::MetaData("schema", vec![3])
}

#[test]
fn has_meta_and_has_data_follow_the_variant() {
    assert_eq!((meta().has_meta(), meta().has_data()), (true, false));
    assert_eq!((data().has_meta(), data().has_data()), (false, true));
    assert_eq!((both().has_meta(), both().has_data()), (true, true));
}

#[test]
fn no_message_set_is_without_both_parts() {
    for set in [meta(), data(), both()] {
        assert!(set.has_meta() || set.has_data());
    }
}

#[test]
fn into_meta_agrees_with_has_meta() {
    assert_eq!(meta().into_meta(), Some("schema"));
    assert_eq!(data().into_meta(), None);
    assert_eq!(both().into_meta(), Some("schema"));
    for set in [meta(), data(), both()] {
        let has = set.has_meta();
        assert_eq!(set.into_meta().is_some(), has);
    }
}

#[test]
fn into_data_agrees_with_has_data() {
    assert_eq!(meta().into_data(), None);
    assert_eq!(data().into_data(), Some(vec![1, 2]));
    assert_eq!(both().into_data(), Some(vec![3]));
    for set in [meta(), data(), both()] {
        let has = set.has_data();
        assert_eq!(set.into_data().is_some(), has);
    }
}

#[test]
fn meta_borrows_the_metadata() {
    assert_eq!(meta().meta(), Some(&"schema"));
    assert_eq!(data().meta(), None);
    assert_eq!(both().meta(), Some(&"schema"));
}

#[test]
fn data_borrows_the_data_for_change() {
    let mut set = both();
    set.data().expect("data").push(4);
    assert_eq!(set, MessageSet::MetaData("schema", vec![3, 4]));

    let mut set = data();
    *set.data().expect("data") = vec![9];
    assert_eq!(set, MessageSet::Data(vec![9]));

    let mut set = meta();
    assert_eq!(set.data(), None);
    assert_eq!(set, meta());
}

#[test]
fn equality_tells_the_variants_apart() {
    let only_meta: MessageSet<u8, u8> = MessageSet::Meta(1);
    let only_data: MessageSet<u8, u8> = MessageSet::Data(1);
    let both: MessageSet<u8, u8> = MessageSet::MetaData(1, 1);
    assert_ne!(only_meta, only_data);
    assert_ne!(only_meta, both);
    assert_ne!(only_data, both);
    assert_eq!(both, MessageSet::MetaData(1, 1));
    assert_ne!(both, MessageSet::MetaData(1, 2));
}

#[test]
fn debug_form_names_the_variant() {
    let only_meta: MessageSet<u8, u8> = MessageSet::Meta(1);
    let only_data: MessageSet<u8, u8> = MessageSet::Data(2);
    let both: MessageSet<u8, u8> = MessageSet::MetaData(1, 2);
    assert_eq!(format!("{:?}", only_meta), "Meta(1)");
    assert_eq!(format!("{:?}", only_data), "Data(2)");
    assert_eq!(format!("{:?}", both), "MetaData(1, 2)");
}
