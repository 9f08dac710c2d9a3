use optee_params::error::ErrorKind;
use optee_params::utee::parameter::{
    DifferentParameter, DifferentParameters, ParamType, Parameter, Parameters,
};
use optee_params::utee::raw::{Memref, TEE_Param, Value};

const VALUE_TAGS: [ParamType; 3] = [
    ParamType::ValueInput,
    ParamType::ValueOutput,
    ParamType::ValueInout,
];

const MEMREF_TAGS: [ParamType; 3] = [
    ParamType::MemrefInput,
    ParamType::MemrefOutput,
    ParamType::MemrefInout,
];

#[test]
fn a_value_slot_narrows_to_a_value_and_not_to_a_memref() {
    for tag in VALUE_TAGS {
        let mut parameter = DifferentParameter::from_values(1, 2, tag);
        match parameter.as_value() {
            Ok(value) => assert_eq!(value.param_type(), tag),
            Err(_) => panic!("a value tag must narrow to a value"),
        }
        match parameter.as_memref() {
            Ok(_) => panic!("a value tag must not narrow to a memory reference"),
            Err(error) => assert_eq!(error.kind(), ErrorKind::BadParameters),
        }
        let mut slot = TEE_Param::zeroed();
        let mut borrowed = Parameter::from_raw(&mut slot, tag);
        assert!(borrowed.as_value().is_ok());
        match borrowed.as_memref() {
            Ok(_) => panic!("a value tag must not narrow to a memory reference"),
            Err(error) => assert_eq!(error.kind(), ErrorKind::BadParameters),
        }
    }
}

#[test]
fn a_memref_slot_narrows_to_a_memref_and_not_to_a_value() {
    for tag in MEMREF_TAGS {
        let mut bytes = vec![1u8, 2, 3];
        let mut parameter = match DifferentParameter::from_vec(&mut bytes, tag) {
            Ok(parameter) => parameter,
            Err(_) => panic!("three bytes fit the size field"),
        };
        match parameter.as_memref() {
            Ok(memref) => assert_eq!(memref.param_type(), tag),
            Err(_) => panic!("a memory reference tag must narrow to a memory reference"),
        }
        match parameter.as_value() {
            Ok(_) => panic!("a memory reference tag must not narrow to a value"),
            Err(error) => assert_eq!(error.kind(), ErrorKind::BadParameters),
        }
        let mut slot = TEE_Param::zeroed();
        let mut borrowed = Parameter::from_raw(&mut slot, tag);
        assert!(borrowed.as_memref().is_ok());
        match borrowed.as_value() {
            Ok(_) => panic!("a memory reference tag must not narrow to a value"),
            Err(error) => assert_eq!(error.kind(), ErrorKind::BadParameters),
        }
    }
}

#[test]
fn an_unused_slot_narrows_to_nothing() {
    let mut stale = [0xAAu8, 0xBB];
    let mut slot = TEE_Param {
        memref: Memref { buffer: &mut stale, size: 2 },
        value: Value { a: 0xdead_beef, b: 0xfeed_f00d },
    };
    {
        let mut parameter = Parameter::from_raw(&mut slot, ParamType::Unused);
        match parameter.as_value() {
            Ok(_) => panic!("the unused tag selects no shape"),
            Err(error) => assert_eq!(error.kind(), ErrorKind::BadParameters),
        }
        match parameter.as_memref() {
            Ok(_) => panic!("the unused tag selects no shape"),
            Err(error) => assert_eq!(error.kind(), ErrorKind::BadParameters),
        }
    }
    assert_eq!(slot.value, Value { a: 0xdead_beef, b: 0xfeed_f00d });
    assert_eq!(slot.memref.size, 2);
    assert_eq!(stale, [0xAA, 0xBB]);

    let mut owned = DifferentParameter::from_values(5, 6, ParamType::Unused);
    assert!(owned.as_value().is_err());
    assert!(owned.as_memref().is_err());
}

#[test]
fn the_zero_slot_is_zero_in_both_shapes() {
    let slot = TEE_Param::zeroed();
    assert_eq!(slot.value, Value { a: 0, b: 0 });
    assert_eq!(slot.memref.size, 0);
    assert!(slot.memref.buffer.is_empty());
}

#[test]
fn a_value_pair_is_read_back() {
    let mut parameter = DifferentParameter::from_values(7, 9, ParamType::ValueInput);
    assert_eq!(parameter.raw.value, Value { a: 7, b: 9 });
    assert_eq!(parameter.raw.memref.size, 0);
    assert!(parameter.raw.memref.buffer.is_empty());
    let value = match parameter.as_value() {
        Ok(value) => value,
        Err(_) => panic!("a value tag must narrow to a value"),
    };
    assert_eq!(value.a(), 7);
    assert_eq!(value.b(), 9);
    assert_eq!(value.param_type(), ParamType::ValueInput);
}

#[test]
fn the_extreme_values_are_kept() {
    let mut parameter = DifferentParameter::from_values(u32::MAX, 0, ParamType::ValueInout);
    let value = parameter.as_value().ok().expect("a value tag");
    assert_eq!(value.a(), u32::MAX);
    assert_eq!(value.b(), 0);
}

#[test]
fn a_value_written_through_the_view_stays_in_the_owned_slot() {
    let mut parameter = DifferentParameter::from_values(7, 9, ParamType::ValueInout);
    {
        let mut value = parameter.as_value().ok().expect("a value tag");
        value.set_a(70);
        assert_eq!(value.a(), 70);
        assert_eq!(value.b(), 9);
        value.set_b(90);
        assert_eq!(value.a(), 70);
        assert_eq!(value.b(), 90);
    }
    assert_eq!(parameter.raw.value, Value { a: 70, b: 90 });
    assert_eq!(parameter.param_type, ParamType::ValueInout);
}

#[test]
fn a_value_written_through_the_view_stays_in_the_borrowed_slot() {
    let mut slot = TEE_Param::zeroed();
    slot.value = Value { a: 1, b: 2 };
    {
        let mut parameter = Parameter::from_raw(&mut slot, ParamType::ValueOutput);
        assert_eq!(parameter.raw().value, Value { a: 1, b: 2 });
        let mut value = parameter.as_value().ok().expect("a value tag");
        assert_eq!(value.a(), 1);
        assert_eq!(value.b(), 2);
        value.set_b(22);
        value.set_a(11);
    }
    assert_eq!(slot.value, Value { a: 11, b: 22 });
    assert_eq!(slot.memref.size, 0);
}

#[test]
fn a_buffer_is_referred_to_in_place() {
    let mut bytes: Vec<u8> = (0..=255u8).collect();
    let length = bytes.len();
    {
        let mut parameter =
            DifferentParameter::from_vec(&mut bytes, ParamType::MemrefInout).ok().expect("fits");
        assert_eq!(parameter.param_type, ParamType::MemrefInout);
        assert_eq!(parameter.raw.memref.size as usize, length);
        assert_eq!(parameter.raw.value, Value { a: 0, b: 0 });
        let mut memref = parameter.as_memref().ok().expect("a memory reference tag");
        let view = memref.buffer();
        assert_eq!(view.len(), length);
        for (i, byte) in view.iter().enumerate() {
            assert_eq!(*byte as usize, i);
        }
        view[0] = 0xEE;
        view[255] = 0x11;
    }
    assert_eq!(bytes.len(), length);
    assert_eq!(bytes[0], 0xEE);
    assert_eq!(bytes[1], 1);
    assert_eq!(bytes[254], 254);
    assert_eq!(bytes[255], 0x11);
}

#[test]
fn an_empty_buffer_gives_an_empty_reference() {
    let mut bytes: Vec<u8> = Vec::new();
    let mut parameter =
        DifferentParameter::from_vec(&mut bytes, ParamType::MemrefInput).ok().expect("fits");
    assert_eq!(parameter.raw.memref.size, 0);
    let mut memref = parameter.as_memref().ok().expect("a memory reference tag");
    assert!(memref.buffer().is_empty());
}

#[test]
fn from_vec_does_not_look_at_the_tag() {
    let mut bytes = vec![1u8, 2, 3];
    let mut parameter =
        DifferentParameter::from_vec(&mut bytes, ParamType::ValueInput).ok().expect("fits");
    assert_eq!(parameter.param_type, ParamType::ValueInput);
    assert_eq!(parameter.raw.memref.size, 3);
    assert!(parameter.as_memref().is_err());
    let value = parameter.as_value().ok().expect("a value tag");
    assert_eq!((value.a(), value.b()), (0, 0));
}

#[test]
fn a_buffer_longer_than_the_size_field_is_refused() {
    let length = (u32::MAX as usize) + 1;
    let mut probe: Vec<u8> = Vec::new();
    if probe.try_reserve_exact(length).is_err() {
        return;
    }
    drop(probe);
    let mut bytes = vec![0u8; length];
    match DifferentParameter::from_vec(&mut bytes, ParamType::MemrefInput) {
        Ok(_) => panic!("the length does not fit 32 bits"),
        Err(error) => assert_eq!(error.kind(), ErrorKind::TargetDead),
    }
    assert_eq!(bytes.len(), length);
}

#[test]
fn a_buffer_as_long_as_the_size_field_allows_is_taken() {
    let length = u32::MAX as usize;
    let mut probe: Vec<u8> = Vec::new();
    if probe.try_reserve_exact(length).is_err() {
        return;
    }
    drop(probe);
    let mut bytes = vec![0u8; length];
    let mut parameter =
        DifferentParameter::from_vec(&mut bytes, ParamType::MemrefOutput).ok().expect("fits");
    assert_eq!(parameter.raw.memref.size, u32::MAX);
    let mut memref = parameter.as_memref().ok().expect("a memory reference tag");
    let view = memref.buffer();
    assert_eq!(view.len(), length);
    view[length - 1] = 7;
    assert_eq!(bytes[length - 1], 7);
}

#[test]
fn the_reported_size_shrinks_without_touching_the_storage() {
    let mut bytes = vec![10u8, 20, 30, 40];
    {
        let mut parameter =
            DifferentParameter::from_vec(&mut bytes, ParamType::MemrefOutput).ok().expect("fits");
        {
            let mut memref = parameter.as_memref().ok().expect("a memory reference tag");
            memref.buffer()[3] = 44;
            memref.set_updated_size(2);
            assert_eq!(memref.raw().size, 2);
            assert_eq!(memref.buffer(), &[10u8, 20][..]);
            assert_eq!(memref.param_type(), ParamType::MemrefOutput);
        }
        assert_eq!(parameter.raw.memref.size, 2);
        assert_eq!(parameter.raw.memref.buffer.len(), 4);
        assert_eq!(parameter.raw().memref.size, 2);
    }
    assert_eq!(bytes, vec![10u8, 20, 30, 44]);
}

#[test]
fn the_view_never_reaches_beyond_the_storage() {
    let mut bytes = vec![1u8, 2, 3];
    let mut parameter =
        DifferentParameter::from_vec(&mut bytes, ParamType::MemrefOutput).ok().expect("fits");
    let mut memref = parameter.as_memref().ok().expect("a memory reference tag");
    memref.set_updated_size(4096);
    assert_eq!(memref.raw().size, 4096);
    assert_eq!(memref.buffer(), &[1u8, 2, 3][..]);
    memref.set_updated_size(0);
    assert!(memref.buffer().is_empty());
    memref.set_updated_size(3);
    assert_eq!(memref.buffer().len(), 3);
}

#[test]
fn the_reported_size_keeps_the_low_32_bits() {
    let mut bytes = vec![1u8, 2, 3, 4, 5];
    let mut parameter =
        DifferentParameter::from_vec(&mut bytes, ParamType::MemrefOutput).ok().expect("fits");
    let mut memref = parameter.as_memref().ok().expect("a memory reference tag");
    memref.set_updated_size((1usize << 32) + 3);
    assert_eq!(memref.raw().size, 3);
    assert_eq!(memref.buffer(), &[1u8, 2, 3][..]);
    memref.set_updated_size(u32::MAX as usize);
    assert_eq!(memref.raw().size, u32::MAX);
}

#[test]
fn the_memref_itself_can_be_written() {
    let mut bytes = vec![1u8, 2, 3];
    let mut parameter =
        DifferentParameter::from_vec(&mut bytes, ParamType::MemrefInout).ok().expect("fits");
    {
        let mut memref = parameter.as_memref().ok().expect("a memory reference tag");
        let raw = memref.raw();
        raw.size = 1;
        raw.buffer[0] = 9;
    }
    assert_eq!(parameter.raw.memref.size, 1);
    drop(parameter);
    assert_eq!(bytes, vec![9u8, 2, 3]);
}

#[test]
fn the_owned_slot_itself_can_be_written() {
    let mut parameter = DifferentParameter::from_values(1, 2, ParamType::ValueInout);
    parameter.raw().value.a = 5;
    assert_eq!(parameter.raw.value, Value { a: 5, b: 2 });
    let value = parameter.as_value().ok().expect("a value tag");
    assert_eq!(value.a(), 5);
}

#[test]
fn four_received_slots_are_bound_to_their_tags() {
    let mut out = [0u8; 4];
    let mut slots = [
        TEE_Param { memref: Memref { buffer: &mut [], size: 0 }, value: Value { a: 7, b: 9 } },
        TEE_Param { memref: Memref { buffer: &mut out, size: 4 }, value: Value { a: 0, b: 0 } },
        TEE_Param::zeroed(),
        TEE_Param::zeroed(),
    ];
    {
        let mut parameters = Parameters::from_raw(&mut slots, 0x61);
        assert_eq!(parameters.0.param_type, ParamType::ValueInput);
        assert_eq!(parameters.1.param_type, ParamType::MemrefOutput);
        assert_eq!(parameters.2.param_type, ParamType::Unused);
        assert_eq!(parameters.3.param_type, ParamType::Unused);

        {
            let value = parameters.0.as_value().ok().expect("slot 0 holds a value");
            assert_eq!(value.a(), 7);
            assert_eq!(value.b(), 9);
        }
        assert!(parameters.0.as_memref().is_err());
        {
            let mut memref = parameters.1.as_memref().ok().expect("slot 1 holds a reference");
            let view = memref.buffer();
            assert_eq!(view.len(), 4);
            view.copy_from_slice(&[1, 2, 3, 4]);
            memref.set_updated_size(3);
        }
        assert!(parameters.1.as_value().is_err());
        assert!(parameters.2.as_value().is_err());
        assert!(parameters.2.as_memref().is_err());
        assert!(parameters.3.as_value().is_err());
        assert!(parameters.3.as_memref().is_err());
    }
    assert_eq!(slots[0].value, Value { a: 7, b: 9 });
    assert_eq!(slots[1].memref.size, 3);
    assert_eq!(slots[2].value, Value { a: 0, b: 0 });
    drop(slots);
    assert_eq!(out, [1, 2, 3, 4]);
}

#[test]
fn each_received_slot_is_written_on_its_own() {
    let mut slots = [
        TEE_Param::zeroed(),
        TEE_Param::zeroed(),
        TEE_Param::zeroed(),
        TEE_Param::zeroed(),
    ];
    {
        let mut parameters = Parameters::from_raw(&mut slots, 0x3232);
        assert_eq!(parameters.0.param_type, ParamType::ValueOutput);
        assert_eq!(parameters.1.param_type, ParamType::ValueInout);
        assert_eq!(parameters.2.param_type, ParamType::ValueOutput);
        assert_eq!(parameters.3.param_type, ParamType::ValueInout);
        parameters.3.as_value().ok().expect("a value tag").set_a(30);
        parameters.0.as_value().ok().expect("a value tag").set_a(0);
        parameters.1.as_value().ok().expect("a value tag").set_b(11);
        parameters.2.as_value().ok().expect("a value tag").set_a(20);
        parameters.0.as_value().ok().expect("a value tag").set_b(1);
    }
    assert_eq!(slots[0].value, Value { a: 0, b: 1 });
    assert_eq!(slots[1].value, Value { a: 0, b: 11 });
    assert_eq!(slots[2].value, Value { a: 20, b: 0 });
    assert_eq!(slots[3].value, Value { a: 30, b: 0 });
}

#[test]
fn a_received_field_with_an_unknown_code_leaves_its_slot_unused() {
    let mut slots = [
        TEE_Param::zeroed(),
        TEE_Param::zeroed(),
        TEE_Param::zeroed(),
        TEE_Param::zeroed(),
    ];
    let mut parameters = Parameters::from_raw(&mut slots, 0xffff_5C41);
    assert_eq!(parameters.0.param_type, ParamType::ValueInput);
    assert_eq!(parameters.1.param_type, ParamType::Unused);
    assert_eq!(parameters.2.param_type, ParamType::Unused);
    assert_eq!(parameters.3.param_type, ParamType::MemrefInput);
    assert!(parameters.1.as_value().is_err());
    assert!(parameters.1.as_memref().is_err());
    assert!(parameters.2.as_memref().is_err());
}

#[test]
fn four_owned_slots_stand_side_by_side() {
    let mut bytes = vec![5u8; 8];
    let mut parameters = DifferentParameters(
        DifferentParameter::from_values(1, 2, ParamType::ValueInput),
        DifferentParameter::from_vec(&mut bytes, ParamType::MemrefInout).ok().expect("fits"),
        DifferentParameter::from_values(0, 0, ParamType::Unused),
        DifferentParameter::from_values(0, 0, ParamType::Unused),
    );
    assert_eq!(parameters.0.as_value().ok().expect("a value tag").b(), 2);
    assert_eq!(parameters.1.as_memref().ok().expect("a reference tag").buffer().len(), 8);
    assert!(parameters.2.as_value().is_err());
    assert!(parameters.3.as_memref().is_err());
}
