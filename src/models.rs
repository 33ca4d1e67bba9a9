pub mod dates;
pub mod expect;
pub mod properties;
pub mod schema;
pub mod text;
pub mod users;
pub mod values;
pub mod with_id;
