mod boundary;
mod error;

pub use boundary::class_of;
pub use boundary::kind_of;
pub use boundary::text_of;
pub use error::classified;
pub use error::is_eof_sentinel;
pub use error::rendered;
pub use error::Error;
pub use error::IoFailure;
pub use error::IoKindClass;
