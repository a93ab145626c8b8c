pub mod mutex;
