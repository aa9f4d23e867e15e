pub mod dashboard;
pub mod errors;
pub mod events;
pub mod identity;
pub mod io;
pub mod openid;
pub mod ssh;
pub mod widget;
