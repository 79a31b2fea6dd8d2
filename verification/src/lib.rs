#![allow(non_snake_case)]
#![allow(non_upper_case_globals)]
#![allow(non_camel_case_types)]
#![allow(unused_parens)]
#![allow(unused_variables)]
#![allow(dead_code)]

pub mod common;
pub mod crc;
pub mod usi;
pub mod adp;
pub mod request;
pub mod lbp;
pub mod lbp_functions;
pub mod app_config;
pub mod lbp_manager;
pub mod app_manager;
pub mod network_manager;
pub mod ipv6_frag_manager;
pub mod tun_interface;
