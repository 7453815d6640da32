//! A runtime for Rust code that lives inside a JavaScript host and works on
//! host values through handles: the values and their models, the handles the
//! runtime reserves, the remembering of number and string handles, the
//! readers that turn host answers into values and property descriptors, the
//! argument arrays of calls, the registered callbacks, and the start-up
//! script.

pub mod cell;
pub mod handles;
pub mod text;
pub mod value;
pub mod intern;
pub mod reader;
pub mod descriptor;
pub mod callbacks;
pub mod call;
pub mod setup;
