//! Import resolution for a style-sheet compiler: the file-system conventions of
//! Sass imports (partial files, an extension list, index files, load paths) and
//! the decisions of a bridge that consults host-supplied resolver callbacks.

pub mod bindings;
pub mod entry;
pub mod errors;
pub mod imitator_importer;
pub mod paths;
pub mod probe;
pub mod proxy_importer;
pub mod resolver;
