//! What is shown in a browser.

pub mod pages;
