use crypto_rs::menu::{file_operations, FileMenuItem, FileOp};

#[test]
fn each_item_dispatches_to_its_operation() {
    assert_eq!(file_operations(FileMenuItem::Encrypt), Some(FileOp::Encrypt));
    assert_eq!(file_operations(FileMenuItem::Decrypt), Some(FileOp::Decrypt));
    assert_eq!(file_operations(FileMenuItem::Hash), Some(FileOp::Hash));
    assert_eq!(file_operations(FileMenuItem::Compare), Some(FileOp::Compare));
}

#[test]
fn go_back_leaves_the_menu() {
    assert_eq!(file_operations(FileMenuItem::GoBack), None);
}
