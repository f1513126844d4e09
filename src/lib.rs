//! Wire encoding of the "execute prepared statement" command of the
//! MariaDB/MySQL client–server binary protocol.

pub mod bytes_view;
pub mod com_stmt_exec;
pub mod null_bitmap;
pub mod types;
pub mod wire;
