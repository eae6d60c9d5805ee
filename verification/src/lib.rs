//! Decision logic of a desktop shell around the DeepSeek Harness Web runtime:
//! loopback URL discovery, `--attach` argument handling, link routing, the
//! harness supervision steps and the one-shot startup presentation.

pub mod text;
pub mod web_url;
pub mod loopback;
pub mod links;
pub mod attach;
pub mod startup;
pub mod harness;
