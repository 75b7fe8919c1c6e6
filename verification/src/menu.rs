use vstd::prelude::*;

verus! {

/// One selection in the file-operations menu.
#[derive(Clone, Copy, Debug, PartialEq, Eq, Structural)]
pub enum FileMenuItem {
    Encrypt,
    Decrypt,
    Hash,
    Compare,
    GoBack,
}

/// One of the four operations the menu can dispatch to.
#[derive(Clone, Copy, Debug, PartialEq, Eq, Structural)]
pub enum FileOp {
    Encrypt,
    Decrypt,
    Hash,
    Compare,
}

/// One step of the file-operations menu: which operation the chosen item
/// dispatches to, or `None` when the caller should leave the menu and
/// return to the one above it. The caller performs the operation, then
/// asks again until this returns `None`.
pub fn file_operations(choice: FileMenuItem) -> (r: Option<FileOp>)
    ensures
        r == (match choice {
            FileMenuItem::Encrypt => Some(FileOp::Encrypt),
            FileMenuItem::Decrypt => Some(FileOp::Decrypt),
            FileMenuItem::Hash => Some(FileOp::Hash),
            FileMenuItem::Compare => Some(FileOp::Compare),
            FileMenuItem::GoBack => None,
        }),
{
    match choice {
        FileMenuItem::Encrypt => Some(FileOp::Encrypt),
        FileMenuItem::Decrypt => Some(FileOp::Decrypt),
        FileMenuItem::Hash => Some(FileOp::Hash),
        FileMenuItem::Compare => Some(FileOp::Compare),
        FileMenuItem::GoBack => None,
    }
}

} // verus!
