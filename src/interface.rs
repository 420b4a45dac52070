pub mod allocation;
pub mod cost;
pub mod customer;
pub mod expense_item;
pub mod expense_report;
pub mod member;
pub mod project;
pub mod role;
pub mod time;
pub mod util;
pub mod utilization;
