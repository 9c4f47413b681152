//! GPIO expanders.

pub mod emakefun_exio;
