use shapes_interop::registry::{
    Registry, RegistryError, Source, READER_READY, STATUS_READY, STOP_PROGRAM,
};
use shapes_interop::role::Role;

#[test]
fn the_usual_tokens() {
    assert_eq!(STOP_PROGRAM, 0);
    assert_eq!(READER_READY, 1);
    assert_eq!(STATUS_READY, 2);
}

#[test]
fn a_new_table_is_empty() {
    let table = Registry::new();
    for source in [Source::Stop, Source::Reader, Source::Status] {
        assert_eq!(table.token_of(source), None);
    }
    for token in [0, 1, 2, 3, usize::MAX] {
        assert_eq!(table.source_of(token), None);
    }
}

#[test]
fn a_registered_source_is_found_both_ways() {
    let mut table = Registry::new();
    assert_eq!(table.register(Source::Status, 17), Ok(()));
    assert_eq!(table.token_of(Source::Status), Some(17));
    assert_eq!(table.source_of(17), Some(Source::Status));
    assert_eq!(table.token_of(Source::Stop), None);
    assert_eq!(table.source_of(0), None);
    assert_eq!(table.register(Source::Stop, 0), Ok(()));
    assert_eq!(table.register(Source::Reader, usize::MAX), Ok(()));
    assert_eq!(table.source_of(0), Some(Source::Stop));
    assert_eq!(table.source_of(usize::MAX), Some(Source::Reader));
    assert_eq!(table.source_of(17), Some(Source::Status));
}

#[test]
fn two_sources_cannot_share_a_token() {
    let mut table = Registry::new();
    assert_eq!(table.register(Source::Stop, 4), Ok(()));
    assert_eq!(table.register(Source::Reader, 4), Err(RegistryError::TokenTaken));
    assert_eq!(table.register(Source::Status, 4), Err(RegistryError::TokenTaken));
    assert_eq!(table.token_of(Source::Reader), None);
    assert_eq!(table.token_of(Source::Status), None);
    assert_eq!(table.source_of(4), Some(Source::Stop));
}

#[test]
fn a_source_registers_once() {
    let mut table = Registry::new();
    assert_eq!(table.register(Source::Reader, 1), Ok(()));
    assert_eq!(table.register(Source::Reader, 9), Err(RegistryError::SourceRegistered));
    assert_eq!(table.register(Source::Reader, 1), Err(RegistryError::SourceRegistered));
    assert_eq!(table.token_of(Source::Reader), Some(1));
    assert_eq!(table.source_of(9), None);
}

#[test]
fn the_table_of_a_publisher_has_no_reader() {
    let table = Registry::for_role(Role::Publisher);
    assert_eq!(table.token_of(Source::Stop), Some(STOP_PROGRAM));
    assert_eq!(table.token_of(Source::Status), Some(STATUS_READY));
    assert_eq!(table.token_of(Source::Reader), None);
    assert_eq!(table.source_of(READER_READY), None);
    assert_eq!(table.source_of(3), None);
}

#[test]
fn the_table_of_a_subscriber_has_all_three() {
    let table = Registry::for_role(Role::Subscriber);
    assert_eq!(table.source_of(STOP_PROGRAM), Some(Source::Stop));
    assert_eq!(table.source_of(READER_READY), Some(Source::Reader));
    assert_eq!(table.source_of(STATUS_READY), Some(Source::Status));
    assert_eq!(table.source_of(3), None);
}
