use gvars::{enabled, structured, Field, Registrations, Registry, TypeTag};

fn declare_test() -> Registry {
    let mut regs = Registrations::new();
    regs.register(Field::new(
        "basic::TEST",
        &["TEST", "test-alias", "test-alias2"],
        &2u32,
    ));
    Registry::build(regs).unwrap()
}

fn read_test(reg: &Registry) -> u32 {
    *reg.field(reg.lookup("basic::TEST").unwrap()).get::<u32>()
}

#[test]
fn basic() {
    let mut reg = declare_test();
    assert_eq!(read_test(&reg), 2);

    if enabled::ENABLED {
        enabled::set(&mut reg, "basic::TEST", "3").unwrap();
        assert_eq!(read_test(&reg), 3);

        enabled::set(&mut reg, "TEST", "4").unwrap();
        assert_eq!(read_test(&reg), 4);
        assert_eq!(enabled::get(&reg, "basic::TEST").unwrap(), "4");

        enabled::set(&mut reg, "test-alias", "7").unwrap();
        assert_eq!(read_test(&reg), 7);

        enabled::set(&mut reg, "test-alias2", "13").unwrap();
        assert_eq!(read_test(&reg), 13);
        assert_eq!(enabled::get(&reg, "test-alias").unwrap(), "13");

        let metadata = enabled::metadata(&reg);
        assert_eq!(metadata.len(), 1);
        assert_eq!(metadata[0].unique_name, "basic::TEST");
        assert_eq!(metadata[0].type_id, TypeTag::U32);
    }
}

#[test]
fn basic_basic() {
    let mut reg = declare_test();
    assert_eq!(read_test(&reg), 2);

    if enabled::ENABLED {
        structured::set(&mut reg, "basic::TEST", "3").unwrap();
        assert_eq!(read_test(&reg), 3);

        structured::set(&mut reg, "TEST", "4").unwrap();
        assert_eq!(read_test(&reg), 4);

        structured::set(&mut reg, "test-alias", "7").unwrap();
        assert_eq!(read_test(&reg), 7);

        structured::set(&mut reg, "test-alias2", "13").unwrap();
        assert_eq!(read_test(&reg), 13);

        let metadata = enabled::metadata(&reg);
        assert_eq!(metadata.len(), 1);
        assert_eq!(metadata[0].unique_name, "basic::TEST");
    }
}
