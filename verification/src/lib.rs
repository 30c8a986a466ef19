//! Renders typed values as SQL literals and assembles `SELECT … FROM … WHERE …`
//! query text from a table name, a projection and a list of predicates.
//!
//! Every rendering function states the exact text it returns over `Seq<char>`.

pub mod date;
pub mod decimal;
pub mod filter;
pub mod ident;
pub mod statement;
pub mod text;
pub mod value;

pub use date::CalendarDate;
pub use decimal::{signed_decimal, unsigned_decimal, Numeric};
pub use filter::{Filter, SQLFilter};
pub use ident::{is_snake_case, snake_case};
pub use statement::SQLable;
pub use text::{join, quote};
pub use value::{SQLComp, ToSql, Verbatim};
