//! Logic of a small "new folder" dialog: picking a free default name,
//! preparing the target directory, the dialog's decisions and geometry, and
//! how a run ends. Nothing here touches the file system or a window: the
//! surrounding program asks, shows and creates, and hands plain values in.

pub mod dialog;
pub mod fonts;
pub mod layout;
pub mod naming;
pub mod outcome;
pub mod target;
