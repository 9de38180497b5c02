pub mod callbacks;
pub mod cli;
pub mod drivers;
pub mod endpoint_url;
pub mod hub;
pub mod mav;
pub mod text;
