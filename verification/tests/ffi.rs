use beejs::ffi::{classify_call, convert_return, memory_kind, parse_arg_types, register_arg_count, CallShape, FFIType, HandleTable, MemoryKind, ReturnValue};

#[test]
fn ffi_type_names_any_case() {
    assert_eq!(FFIType::from_str("Double"), Ok(FFIType::F64));
    assert_eq!(FFIType::from_str("USIZE"), Ok(FFIType::U64));
    assert_eq!(FFIType::from_str("string"), Ok(FFIType::CString));
    assert_eq!(FFIType::from_str("int"), Ok(FFIType::I32));
    assert_eq!(FFIType::from_str("Quaternion"), Err("Unsupported FFI type: Quaternion".to_string()));
}

#[test]
fn arg_type_parsing_skips_unknown() {
    let names = vec!["f64".to_string(), "what".to_string(), "PTR".to_string()];
    assert_eq!(parse_arg_types(&names), vec![FFIType::F64, FFIType::Ptr]);
}

#[test]
fn call_shapes() {
    assert_eq!(classify_call(&vec![], FFIType::Void), CallShape::NoArgsVoid);
    assert_eq!(classify_call(&vec![FFIType::F64], FFIType::F64), CallShape::F64ToF64);
    assert_eq!(classify_call(&vec![FFIType::CString], FFIType::U64), CallShape::TextToSize);
    assert_eq!(classify_call(&vec![FFIType::CString, FFIType::CString], FFIType::I32), CallShape::TextTextToI32);
    assert_eq!(classify_call(&vec![FFIType::Ptr, FFIType::I32, FFIType::U64], FFIType::Ptr), CallShape::PtrI32SizeToPtr);
    assert_eq!(classify_call(&vec![FFIType::U8], FFIType::U8), CallShape::Registers);
}

#[test]
fn register_results_are_cut_to_width() {
    assert_eq!(convert_return(0x1ff, FFIType::U8), ReturnValue::Integer(0xff));
    assert_eq!(convert_return(0xff, FFIType::I8), ReturnValue::Integer(-1));
    assert_eq!(convert_return(0, FFIType::Bool), ReturnValue::Boolean(false));
    assert_eq!(convert_return(7, FFIType::Void), ReturnValue::Undefined);
    assert_eq!(register_arg_count(3), 0);
    assert_eq!(register_arg_count(6), 2);
    assert_eq!(register_arg_count(40), 6);
}

#[test]
fn memory_kinds() {
    assert_eq!(memory_kind("Ptr"), Some(MemoryKind::U64));
    assert_eq!(memory_kind("f32"), Some(MemoryKind::F32));
    assert_eq!(memory_kind("bool"), None);
}

#[test]
fn handle_ids_count_up_and_are_not_reused() {
    let mut t: HandleTable<&str> = HandleTable::new();
    let a = t.open("libm");
    let b = t.open("libc");
    assert_eq!((a, b), (1, 2));
    assert_eq!(t.close(a), Some("libm"));
    assert_eq!(t.close(a), None);
    assert_eq!(t.open("again"), 3);
    assert_eq!(t.get(2), Some(&"libc"));
    assert_eq!(t.upcoming_id(), 4);
}
