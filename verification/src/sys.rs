pub mod avfoundation;
pub mod web;
