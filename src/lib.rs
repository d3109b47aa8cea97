mod bytes;
pub mod cursor;
mod encoding;
pub mod error;
pub mod model;
pub mod pagination;
pub mod session;
pub mod util;

pub use cursor::CardCursor;
pub use error::Error;
pub use model::{Card, Id, Mutation, NewUser, Query, User, UserKind};
pub use pagination::{build_connection, plan_range, CardConnection, CardEdge, RangeQuery};
pub use session::{authorize, create_session, extract_session, NewSession, Session};
pub use util::{hash_password, verify_password};
