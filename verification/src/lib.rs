//! A client library for IBus (Intelligent Input Bus): the data model of
//! input-method engines (text with attributes, candidate lookup tables,
//! properties, key events, components) with its IBusSerializable wire
//! encoding, component XML generation, the IBus address file, typed
//! configuration readings, and a demonstration engine whose handlers return
//! the requests they make of the daemon.
//!
//! Every function here carries a contract that Verus proves; the laws of
//! the model (what decoding gives back of an encoding, how the candidate
//! cursor moves, what an update leaves for a lookup) are proof functions
//! named `law_*`.
#![allow(non_upper_case_globals)]
#![allow(non_snake_case)]

pub mod address;
pub mod attr;
pub mod component;
pub mod config;
pub mod demo;
pub mod engine;
pub mod error;
pub mod factory;
pub mod gvalue;
pub mod input_context;
pub mod key;
pub mod lookup_table;
pub mod prop;
pub mod strings;
pub mod text;
pub mod xml;

pub use component::{Component, EngineDesc};
pub use error::Error;
pub use gvalue::GValue;
pub use input_context::{Caps, Hint as InputHint, Purpose};
pub use key::{keysym, KeyEvent, ModifierType};
pub use attr::{Attr, AttrList, AttrType};
pub use lookup_table::{LookupOrientation, LookupTable};
pub use prop::{Prop, PropList, PropState, PropType};
pub use text::Text;
pub use xml::component_to_xml;
