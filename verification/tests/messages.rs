use pg_wire::messages::{
    AUTHENTICATION, BACKEND_KEY_DATA, BIND_COMPLETE, CLOSE_COMPLETE, COMMAND_COMPLETE, DATA_ROW,
    EMPTY_QUERY_RESPONSE, ERROR_RESPONSE, NOTICE_RESPONSE, NO_DATA, PARAMETER_DESCRIPTION,
    PARAMETER_STATUS, PARSE_COMPLETE, READY_FOR_QUERY, ROW_DESCRIPTION,
};
use pg_wire::{BackendMessage, ColumnMetadata, PgType};

#[test]
fn notice() {
    assert_eq!(
        BackendMessage::NoticeResponse.as_vec(),
        vec![NOTICE_RESPONSE, 0, 0, 0, 5, 0]
    );
}

#[test]
fn authentication_cleartext_password() {
    assert_eq!(
        BackendMessage::AuthenticationCleartextPassword.as_vec(),
        vec![AUTHENTICATION, 0, 0, 0, 8, 0, 0, 0, 3]
    )
}

#[test]
fn authentication_md5_password() {
    assert_eq!(
        BackendMessage::AuthenticationMD5Password.as_vec(),
        vec![AUTHENTICATION, 0, 0, 0, 12, 0, 0, 0, 5, 1, 1, 1, 1]
    )
}

#[test]
fn authentication_ok() {
    assert_eq!(
        BackendMessage::AuthenticationOk.as_vec(),
        vec![AUTHENTICATION, 0, 0, 0, 8, 0, 0, 0, 0]
    )
}

#[test]
fn backend_key_data() {
    assert_eq!(
        BackendMessage::BackendKeyData(1, 2).as_vec(),
        vec![BACKEND_KEY_DATA, 0, 0, 0, 12, 0, 0, 0, 1, 0, 0, 0, 2]
    )
}

#[test]
fn parameter_status() {
    assert_eq!(
        BackendMessage::ParameterStatus("client_encoding".to_owned(), "UTF8".to_owned()).as_vec(),
        vec![
            PARAMETER_STATUS,
            0,
            0,
            0,
            25,
            99,
            108,
            105,
            101,
            110,
            116,
            95,
            101,
            110,
            99,
            111,
            100,
            105,
            110,
            103,
            0,
            85,
            84,
            70,
            56,
            0
        ]
    )
}

#[test]
fn ready_for_query() {
    assert_eq!(
        BackendMessage::ReadyForQuery.as_vec(),
        vec![READY_FOR_QUERY, 0, 0, 0, 5, EMPTY_QUERY_RESPONSE]
    )
}

#[test]
fn data_row() {
    assert_eq!(
        BackendMessage::DataRow(vec!["1".to_owned(), "2".to_owned(), "3".to_owned()]).as_vec(),
        vec![DATA_ROW, 0, 0, 0, 21, 0, 3, 0, 0, 0, 1, 49, 0, 0, 0, 1, 50, 0, 0, 0, 1, 51]
    )
}

#[test]
fn row_description() {
    assert_eq!(
        BackendMessage::RowDescription(vec![ColumnMetadata::new("c1".to_owned(), PgType::Integer)]).as_vec(),
        vec![
            ROW_DESCRIPTION,
            0,
            0,
            0,
            27,
            0,
            1,
            99,
            49,
            0,
            0,
            0,
            0,
            0,
            0,
            0,
            0,
            0,
            0,
            23,
            0,
            4,
            255,
            255,
            255,
            255,
            0,
            0
        ]
    );
}

#[test]
fn command_complete() {
    assert_eq!(
        BackendMessage::CommandComplete("SELECT".to_owned()).as_vec(),
        vec![COMMAND_COMPLETE, 0, 0, 0, 11, 83, 69, 76, 69, 67, 84, 0]
    )
}

#[test]
fn empty_response() {
    assert_eq!(
        BackendMessage::EmptyQueryResponse.as_vec(),
        vec![EMPTY_QUERY_RESPONSE, 0, 0, 0, 4]
    )
}

#[test]
fn error_response() {
    assert_eq!(
        BackendMessage::ErrorResponse(None, None, None).as_vec(),
        vec![ERROR_RESPONSE, 0, 0, 0, 5, 0]
    )
}

#[test]
fn parameter_description() {
    assert_eq!(
        BackendMessage::ParameterDescription(vec![PgType::Integer]).as_vec(),
        vec![PARAMETER_DESCRIPTION, 0, 0, 0, 10, 0, 1, 0, 0, 0, 23]
    )
}

#[test]
fn no_data() {
    assert_eq!(BackendMessage::NoData.as_vec(), vec![NO_DATA, 0, 0, 0, 4])
}

#[test]
fn parse_complete() {
    assert_eq!(BackendMessage::ParseComplete.as_vec(), vec![PARSE_COMPLETE, 0, 0, 0, 4])
}

#[test]
fn bind_complete() {
    assert_eq!(BackendMessage::BindComplete.as_vec(), vec![BIND_COMPLETE, 0, 0, 0, 4])
}

#[test]
fn close_complete() {
    assert_eq!(BackendMessage::CloseComplete.as_vec(), vec![CLOSE_COMPLETE, 0, 0, 0, 4])
}

#[test]
fn tags_of_backend_messages() {
    assert_eq!(AUTHENTICATION, b'R');
    assert_eq!(BACKEND_KEY_DATA, b'K');
    assert_eq!(COMMAND_COMPLETE, b'C');
    assert_eq!(DATA_ROW, b'D');
    assert_eq!(ERROR_RESPONSE, b'E');
    assert_eq!(EMPTY_QUERY_RESPONSE, b'I');
    assert_eq!(NOTICE_RESPONSE, b'N');
    assert_eq!(PARAMETER_STATUS, b'S');
    assert_eq!(ROW_DESCRIPTION, b'T');
    assert_eq!(READY_FOR_QUERY, b'Z');
    assert_eq!(PARAMETER_DESCRIPTION, b't');
    assert_eq!(NO_DATA, b'n');
    assert_eq!(PARSE_COMPLETE, b'1');
    assert_eq!(BIND_COMPLETE, b'2');
    assert_eq!(CLOSE_COMPLETE, b'3');
}

#[test]
fn error_response_with_every_field() {
    assert_eq!(
        BackendMessage::ErrorResponse(Some("ERROR"), Some("42P01"), Some("no table".to_owned()))
            .as_vec(),
        vec![
            b'E', 0, 0, 0, 29, b'S', b'E', b'R', b'R', b'O', b'R', 0, b'C', b'4', b'2', b'P',
            b'0', b'1', 0, b'M', b'n', b'o', b' ', b't', b'a', b'b', b'l', b'e', 0, 0
        ]
    );
    assert_eq!(
        BackendMessage::ErrorResponse(None, Some("0A000"), None).as_vec(),
        vec![b'E', 0, 0, 0, 12, b'C', b'0', b'A', b'0', b'0', b'0', 0, 0]
    );
}

#[test]
fn key_data_with_negative_numbers() {
    assert_eq!(
        BackendMessage::BackendKeyData(-1, i32::MIN).as_vec(),
        vec![b'K', 0, 0, 0, 12, 255, 255, 255, 255, 128, 0, 0, 0]
    );
}

#[test]
fn empty_lists_are_framed_with_their_count() {
    assert_eq!(BackendMessage::DataRow(vec![]).as_vec(), vec![b'D', 0, 0, 0, 6, 0, 0]);
    assert_eq!(BackendMessage::RowDescription(vec![]).as_vec(), vec![b'T', 0, 0, 0, 6, 0, 0]);
    assert_eq!(
        BackendMessage::ParameterDescription(vec![]).as_vec(),
        vec![b't', 0, 0, 0, 6, 0, 0]
    );
    assert_eq!(
        BackendMessage::DataRow(vec!["".to_owned(), "\u{e9}".to_owned()]).as_vec(),
        vec![b'D', 0, 0, 0, 16, 0, 2, 0, 0, 0, 0, 0, 0, 0, 2, 0xC3, 0xA9]
    );
}

#[test]
fn row_description_of_every_type() {
    let bytes = BackendMessage::RowDescription(vec![
        ColumnMetadata::new("a".to_owned(), PgType::VarChar),
        ColumnMetadata::new("b".to_owned(), PgType::BigInt),
    ])
    .as_vec();
    assert_eq!(
        bytes,
        vec![
            b'T', 0, 0, 0, 46, 0, 2, b'a', 0, 0, 0, 0, 0, 0, 0, 0, 0, 4, 19, 255, 255, 255, 255,
            255, 255, 0, 0, b'b', 0, 0, 0, 0, 0, 0, 0, 0, 0, 0, 20, 0, 8, 255, 255, 255, 255, 0, 0
        ]
    );
}

#[test]
fn column_metadata_takes_oid_and_size_from_the_type() {
    let column = ColumnMetadata::new("id".to_owned(), PgType::SmallInt);
    assert_eq!(column.name, "id");
    assert_eq!(column.type_id, 21);
    assert_eq!(column.type_size, 2);
}

#[test]
fn declared_length_counts_all_but_the_tag() {
    let messages = vec![
        BackendMessage::NoticeResponse,
        BackendMessage::AuthenticationCleartextPassword,
        BackendMessage::AuthenticationMD5Password,
        BackendMessage::AuthenticationOk,
        BackendMessage::BackendKeyData(7, -9),
        BackendMessage::ReadyForQuery,
        BackendMessage::DataRow(vec!["ab".to_owned(), "".to_owned()]),
        BackendMessage::RowDescription(vec![ColumnMetadata::new("c".to_owned(), PgType::Bool)]),
        BackendMessage::CommandComplete("INSERT 0 1".to_owned()),
        BackendMessage::EmptyQueryResponse,
        BackendMessage::ErrorResponse(Some("FATAL"), None, Some("m".to_owned())),
        BackendMessage::ParameterStatus("a".to_owned(), "b".to_owned()),
        BackendMessage::ParameterDescription(vec![PgType::Char, PgType::VarChar]),
        BackendMessage::NoData,
        BackendMessage::ParseComplete,
        BackendMessage::BindComplete,
        BackendMessage::CloseComplete,
    ];
    for message in messages.iter() {
        let bytes = message.as_vec();
        let declared = i32::from_be_bytes([bytes[1], bytes[2], bytes[3], bytes[4]]);
        assert_eq!(declared as usize, bytes.len() - 1);
        assert!(declared >= 4);
    }
}

#[test]
fn declared_lengths_of_the_messages_of_fixed_size() {
    let declared = |message: BackendMessage| {
        let bytes = message.as_vec();
        i32::from_be_bytes([bytes[1], bytes[2], bytes[3], bytes[4]])
    };
    assert_eq!(declared(BackendMessage::EmptyQueryResponse), 4);
    assert_eq!(declared(BackendMessage::NoData), 4);
    assert_eq!(declared(BackendMessage::ParseComplete), 4);
    assert_eq!(declared(BackendMessage::BindComplete), 4);
    assert_eq!(declared(BackendMessage::CloseComplete), 4);
    assert_eq!(declared(BackendMessage::ReadyForQuery), 5);
    assert_eq!(declared(BackendMessage::NoticeResponse), 5);
    assert_eq!(declared(BackendMessage::AuthenticationOk), 8);
    assert_eq!(declared(BackendMessage::AuthenticationCleartextPassword), 8);
    assert_eq!(declared(BackendMessage::AuthenticationMD5Password), 12);
    assert_eq!(declared(BackendMessage::BackendKeyData(-1, 1)), 12);
}
