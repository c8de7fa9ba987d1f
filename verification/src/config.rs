use vstd::prelude::*;
use vstd::string::StringExecFns;
use crate::error::BError;
use crate::jsondoc::{get_json_text_field, json_text_field};

verus! {

/// The selected build configuration: a versioned record parsed from a JSON
/// config object. `name` and `init_env` are optional in the document and
/// default to the sentinel text `NA`; `version` is required.
#[derive(Debug)]
pub struct WsConfigData {
    version: String,
    name: String,
    init_env: String,
}

/// The text an optional field parses to: the field's own text when the
/// document holds it, the sentinel `NA` otherwise.
pub open spec fn optional_field(doc: Seq<char>, key: Seq<char>) -> Seq<char> {
    match json_text_field(doc, key) {
        Some(s) => s,
        None => "NA"@,
    }
}

impl WsConfigData {
    pub closed spec fn spec_version(&self) -> Seq<char> {
        self.version@
    }

    pub closed spec fn spec_name(&self) -> Seq<char> {
        self.name@
    }

    pub closed spec fn spec_init_env(&self) -> Seq<char> {
        self.init_env@
    }

    /// Parses a JSON build-config object. `version` must be present as a
    /// string; `name` and `initenv` default to `NA` when absent, and a
    /// present field is taken literally, with no trimming or transformation.
    pub fn from_str(json_string: &str) -> (r: Result<WsConfigData, BError>)
        ensures
            match r {
                Ok(c) => {
                    &&& json_text_field(json_string@, "version"@) == Some(c.spec_version())
                    &&& c.spec_name() == optional_field(json_string@, "name"@)
                    &&& c.spec_init_env() == optional_field(json_string@, "initenv"@)
                },
                Err(e) => {
                    &&& json_text_field(json_string@, "version"@) is None
                    &&& e is ConfigParseError
                },
            },
    {
        let version = match get_json_text_field(json_string, "version") {
            Some(v) => v,
            None => {
                return Err(BError::ConfigParseError(String::from_str("version")));
            },
        };
        let name = match get_json_text_field(json_string, "name") {
            Some(n) => n,
            None => String::from_str("NA"),
        };
        let init_env = match get_json_text_field(json_string, "initenv") {
            Some(x) => x,
            None => String::from_str("NA"),
        };
        Ok(WsConfigData { version, name, init_env })
    }

    /// Builds a configuration record directly from its fields.
    pub fn new(version: String, name: String, init_env: String) -> (r: WsConfigData)
        ensures
            r.spec_version() == version@,
            r.spec_name() == name@,
            r.spec_init_env() == init_env@,
    {
        WsConfigData { version, name, init_env }
    }

    pub fn name(&self) -> (r: &str)
        ensures
            r@ == self.spec_name(),
    {
        self.name.as_str()
    }

    pub fn version(&self) -> (r: &str)
        ensures
            r@ == self.spec_version(),
    {
        self.version.as_str()
    }

    pub fn init_env(&self) -> (r: &str)
        ensures
            r@ == self.spec_init_env(),
    {
        self.init_env.as_str()
    }

    /// Replaces the init-env template with its expanded text.
    pub fn set_init_env(&mut self, init_env: String)
        ensures
            final(self).spec_init_env() == init_env@,
            final(self).spec_version() == old(self).spec_version(),
            final(self).spec_name() == old(self).spec_name(),
    {
        self.init_env = init_env;
    }
}

} // verus!
