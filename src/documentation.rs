use std::collections::HashMap;

use vstd::prelude::*;
use vstd::string::StringExecFns;

verus! {

/// What the annotator can do.
pub struct TextImagerCapability {
    /// The languages the annotator supports; empty when it does not restrict
    /// them.
    pub supported_languages: Vec<String>,
    /// Whether the same input always gives the same result, without side
    /// effects.
    pub reproducible: bool,
}

/// A description of the annotator, for clients of the service.
pub struct TextImagerDocumentation {
    pub annotator_name: String,
    pub version: String,
    /// The language the annotator is written in.
    pub implementation_lang: Option<String>,
    pub meta: Option<HashMap<String, String>>,
    pub docker_container_id: Option<String>,
    /// The parameters the annotator accepts, with a description of each.
    pub parameters: Option<HashMap<String, String>>,
    pub capability: TextImagerCapability,
    pub implementation_specific: Option<String>,
}

impl TextImagerDocumentation {
    /// The description of a reproducible annotator written in Rust, for no
    /// language in particular, with nothing else to declare.
    pub fn new(annotator_name: String, version: String, rust_version: &str) -> (r: Self)
        ensures
            r.annotator_name == annotator_name,
            r.version == version,
            r.implementation_lang matches Some(lang) && lang@ == "Rust "@ + rust_version@,
            r.meta is None,
            r.docker_container_id is None,
            r.parameters is None,
            r.capability.supported_languages@.len() == 0,
            r.capability.reproducible,
            r.implementation_specific is None,
    {
        let lang = String::from_str("Rust ").concat(rust_version);
        TextImagerDocumentation {
            annotator_name,
            version,
            implementation_lang: Some(lang),
            meta: None,
            docker_container_id: None,
            parameters: None,
            capability: TextImagerCapability { supported_languages: Vec::new(), reproducible: true },
            implementation_specific: None,
        }
    }
}

} // verus!
