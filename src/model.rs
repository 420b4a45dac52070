pub mod allocation;
pub mod client;
pub mod customer;
pub mod enums;
pub mod expense_item;
pub mod member;
pub mod project;
pub mod time;
pub mod types;
