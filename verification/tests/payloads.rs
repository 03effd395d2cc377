use holochain_wasmer::payloads::{BytesType, IntegerType, SomeStruct, StringType};

#[test]
fn some_struct_processes_its_string() {
    let mut s = SomeStruct::new("foo".into());
    s.process();
    assert_eq!(s, SomeStruct::new("processed: foo".into()));
    s.process();
    assert_eq!(s, SomeStruct::new("processed: processed: foo".into()));
}

#[test]
fn newtypes_convert_both_ways() {
    let s: String = StringType::from(String::from("bar")).into();
    assert_eq!(s, "bar");
    assert_eq!(BytesType::from(vec![1, 2, 3]).inner(), vec![1, 2, 3]);
    let n: u32 = IntegerType::from(7).into();
    assert_eq!(n, 7);
}
