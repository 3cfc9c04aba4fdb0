pub mod counting;
pub mod model;
pub mod numfmt;
pub mod report;
pub mod request;
pub mod snippet;
