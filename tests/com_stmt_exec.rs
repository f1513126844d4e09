use bytes::Bytes;
use mariadb_stmt::com_stmt_exec::{ComStmtExec, ExecError, COM_STMT_EXECUTE};
use mariadb_stmt::null_bitmap::null_bitmap_of;
use mariadb_stmt::types::{ColumnDefPacket, ConnContext, FieldDetailFlag, FieldType, StmtExecFlag};
use mariadb_stmt::wire::Encoder;

fn column(field_type: FieldType, field_details: FieldDetailFlag) -> ColumnDefPacket {
    ColumnDefPacket {
        catalog: Bytes::from_static(b"def"),
        schema: Bytes::from_static(b"test"),
        table_alias: Bytes::from_static(b"users"),
        table: Bytes::from_static(b"users"),
        column_alias: Bytes::from_static(b"username"),
        column: Bytes::from_static(b"username"),
        length_of_fixed_fields: Some(0x0Cu64),
        char_set: 1,
        max_columns: 1,
        field_type,
        field_details,
        decimals: 0,
    }
}

fn encode(req: &ComStmtExec) -> Result<Vec<u8>, ExecError> {
    let mut encoder = Encoder::new(128);
    let mut ctx = ConnContext::new();
    req.serialize(&mut ctx, &mut encoder)?;
    Ok(encoder.buf)
}

#[test]
fn it_encodes_com_stmt_close() -> Result<(), ExecError> {
    let mut encoder = Encoder::new(128);
    let mut ctx = ConnContext::new();

    ComStmtExec {
        stmt_id: 1,
        flags: StmtExecFlag::NoCursor,
        params: Some(vec![Some(Bytes::from_static(b"\x06daniel"))]),
        param_defs: Some(vec![ColumnDefPacket {
            catalog: Bytes::from_static(b"def"),
            schema: Bytes::from_static(b"test"),
            table_alias: Bytes::from_static(b"users"),
            table: Bytes::from_static(b"users"),
            column_alias: Bytes::from_static(b"username"),
            column: Bytes::from_static(b"username"),
            length_of_fixed_fields: Some(0x0Cu64),
            char_set: 1,
            max_columns: 1,
            field_type: FieldType::MysqlTypeString,
            field_details: FieldDetailFlag::not_null(),
            decimals: 0,
        }]),
    }
    .serialize(&mut ctx, &mut encoder)?;

    Ok(())
}

#[test]
fn one_string_parameter_exact_bytes() {
    let req = ComStmtExec {
        stmt_id: 1,
        flags: StmtExecFlag::NoCursor,
        params: Some(vec![Some(Bytes::from_static(b"\x06daniel"))]),
        param_defs: Some(vec![column(FieldType::MysqlTypeString, FieldDetailFlag::not_null())]),
    };
    let out = encode(&req).unwrap();
    let mut expected = vec![
        20, 0, 0, // length of what follows
        0, // sequence number
        0x17, // command
        1, 0, 0, 0, // statement id
        0, // flags
        0, // reserved
        0x00, // NULL-bitmap
        0x01, // types follow
        254, 0x01, // string, not unsigned
        7, // value length
    ];
    expected.extend_from_slice(b"\x06daniel");
    assert_eq!(out, expected);
    assert_eq!(out[0] as usize, out.len() - 3);
}

#[test]
fn without_descriptors_only_the_prologue() {
    let req = ComStmtExec {
        stmt_id: 1,
        flags: StmtExecFlag::NoCursor,
        params: Some(vec![Some(Bytes::from_static(b"\x06daniel")), None]),
        param_defs: None,
    };
    let out = encode(&req).unwrap();
    assert_eq!(out, vec![8, 0, 0, 0, COM_STMT_EXECUTE, 1, 0, 0, 0, 0, 0]);
}

#[test]
fn without_parameters_only_the_prologue() {
    let req = ComStmtExec {
        stmt_id: -2,
        flags: StmtExecFlag::ScrollableCursor,
        params: None,
        param_defs: Some(vec![column(FieldType::MysqlTypeLong, FieldDetailFlag::not_null())]),
    };
    let out = encode(&req).unwrap();
    assert_eq!(out, vec![8, 0, 0, 0, 0x17, 0xFE, 0xFF, 0xFF, 0xFF, 4, 0]);
}

#[test]
fn count_mismatch_writes_nothing() {
    let req = ComStmtExec {
        stmt_id: 3,
        flags: StmtExecFlag::ReadOnly,
        params: Some(vec![None, None]),
        param_defs: Some(vec![column(FieldType::MysqlTypeLong, FieldDetailFlag::not_null())]),
    };
    let mut encoder = Encoder::new(16);
    encoder.buf.push(0xAB);
    let mut ctx = ConnContext::new();
    let r = req.serialize(&mut ctx, &mut encoder);
    assert_eq!(r, Err(ExecError::ParamCountMismatch));
    assert_eq!(encoder.buf, vec![0xAB]);
}

#[test]
fn unsupported_type_is_reported_with_its_index() {
    let req = ComStmtExec {
        stmt_id: 3,
        flags: StmtExecFlag::NoCursor,
        params: Some(vec![
            None,
            Some(Bytes::from_static(b"\x01\x00\x00\x00")),
            Some(Bytes::from_static(b"x")),
        ]),
        param_defs: Some(vec![
            column(FieldType::MysqlTypeDate, FieldDetailFlag::not_null()),
            column(FieldType::MysqlTypeLong, FieldDetailFlag::not_null()),
            column(FieldType::MysqlTypeTime, FieldDetailFlag::not_null()),
        ]),
    };
    let mut encoder = Encoder::new(16);
    let mut ctx = ConnContext::new();
    let r = req.serialize(&mut ctx, &mut encoder);
    assert_eq!(
        r,
        Err(ExecError::UnsupportedParamType { index: 2, field_type: FieldType::MysqlTypeTime })
    );
    assert!(encoder.buf.is_empty());
}

#[test]
fn unsigned_parameter_sends_zero_signedness_byte() {
    let flags = FieldDetailFlag::not_null().union(FieldDetailFlag::unsigned());
    let req = ComStmtExec {
        stmt_id: 0x0102_0304,
        flags: StmtExecFlag::CursorForUpdate,
        params: Some(vec![Some(Bytes::from_static(b"\x2A\x00\x00\x00")), None]),
        param_defs: Some(vec![
            column(FieldType::MysqlTypeLong, flags),
            column(FieldType::MysqlTypeTiny, FieldDetailFlag::not_null()),
        ]),
    };
    let out = encode(&req).unwrap();
    assert_eq!(
        out,
        vec![
            18, 0, 0, 0, 0x17, 4, 3, 2, 1, 2, 0, // header and prologue
            0b10, // second parameter NULL
            1, 3, 0, 1, 1, // types: long unsigned, tiny signed
            0x2A, 0, 0, 0, // the long, as given
        ]
    );
}

#[test]
fn null_bitmap_sets_the_bit_of_each_null() {
    let mut params: Vec<Option<Bytes>> = Vec::new();
    for i in 0..10 {
        if i == 0 || i == 2 || i == 3 || i == 9 {
            params.push(None);
        } else {
            params.push(Some(Bytes::from_static(b"v")));
        }
    }
    assert_eq!(null_bitmap_of(&params), vec![0b0000_1101, 0b0000_0010]);
}

#[test]
fn null_bitmap_sizes() {
    assert_eq!(null_bitmap_of(&Vec::new()), Vec::<u8>::new());
    assert_eq!(null_bitmap_of(&vec![None]), vec![1]);
    assert_eq!(null_bitmap_of(&vec![None; 8]), vec![0xFF]);
    assert_eq!(null_bitmap_of(&vec![None; 9]), vec![0xFF, 1]);
    assert_eq!(null_bitmap_of(&vec![Some(Bytes::from_static(b"a")); 16]), vec![0, 0]);
}

#[test]
fn long_string_gets_two_byte_length_prefix() {
    let value = vec![b'z'; 300];
    let req = ComStmtExec {
        stmt_id: 1,
        flags: StmtExecFlag::NoCursor,
        params: Some(vec![Some(Bytes::from(value.clone()))]),
        param_defs: Some(vec![column(FieldType::MysqlTypeVarString, FieldDetailFlag::not_null())]),
    };
    let out = encode(&req).unwrap();
    assert_eq!(&out[11..18], &[0, 1, 253, 1, 0xFC, 0x2C, 0x01]);
    assert_eq!(&out[18..], &value[..]);
    let len = out[0] as usize + 256 * out[1] as usize + 65536 * out[2] as usize;
    assert_eq!(len, out.len() - 3);
    assert_eq!(len, 8 + 1 + 1 + 2 + 3 + 300);
}

#[test]
fn oversized_packet_is_refused() {
    let value = vec![0u8; 0x100_0000];
    let req = ComStmtExec {
        stmt_id: 1,
        flags: StmtExecFlag::NoCursor,
        params: Some(vec![Some(Bytes::from(value))]),
        param_defs: Some(vec![column(FieldType::MysqlTypeBlob, FieldDetailFlag::not_null())]),
    };
    let mut encoder = Encoder::new(0);
    let mut ctx = ConnContext::new();
    assert_eq!(req.serialize(&mut ctx, &mut encoder), Err(ExecError::PacketTooLarge));
    assert!(encoder.buf.is_empty());
}

#[test]
fn packet_is_appended_after_existing_bytes() {
    let req = ComStmtExec { stmt_id: 7, flags: StmtExecFlag::NoCursor, params: None, param_defs: None };
    let mut encoder = Encoder::new(0);
    encoder.buf.extend_from_slice(&[9, 9]);
    let mut ctx = ConnContext::new();
    req.serialize(&mut ctx, &mut encoder).unwrap();
    assert_eq!(encoder.buf, vec![9, 9, 8, 0, 0, 0, 0x17, 7, 0, 0, 0, 0, 0]);
}
