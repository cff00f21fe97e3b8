//! Live AFL fixtures, scores and player statistics: the data model, the
//! decisions of the fixture browser and match screen, and the refresh
//! schedule of the background poller, each stated and proved with Verus.

pub mod api;
pub mod app;
pub mod feed;
pub mod layout;
pub mod logo;
pub mod models;
pub mod ordering;
pub mod poller;
pub mod teams;
pub mod text;
pub mod time;
pub mod view;
