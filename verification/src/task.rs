use vstd::prelude::*;
use vstd::string::StringExecFns;
use crate::error::BError;
use crate::jsondoc::{get_json_text_field, json_text_field};
use crate::strutil::str_eq;

verus! {

/// One build step: a working directory and the shell command strings that
/// build and clean it. `docker_image` empty or equal to the sentinel `NA`
/// means the step runs natively; any other text names the container image
/// the step must run in.
#[derive(Debug)]
pub struct WsTaskData {
    name: String,
    build_dir: String,
    build_cmd: String,
    clean_cmd: String,
    docker_image: String,
}

/// The directory a task runs in: the named subdirectory of the workspace
/// work directory.
pub open spec fn joined_dir(work_dir: Seq<char>, sub: Seq<char>) -> Seq<char> {
    work_dir + "/"@ + sub
}

impl WsTaskData {
    pub closed spec fn spec_name(&self) -> Seq<char> {
        self.name@
    }

    pub closed spec fn spec_build_dir(&self) -> Seq<char> {
        self.build_dir@
    }

    pub closed spec fn spec_build_cmd(&self) -> Seq<char> {
        self.build_cmd@
    }

    pub closed spec fn spec_clean_cmd(&self) -> Seq<char> {
        self.clean_cmd@
    }

    pub closed spec fn spec_docker_image(&self) -> Seq<char> {
        self.docker_image@
    }

    /// True when the step's image reference names a real container image:
    /// it is present and is not the sentinel `NA`.
    pub open spec fn spec_requires_container(&self) -> bool {
        self.spec_docker_image().len() > 0 && self.spec_docker_image() != "NA"@
    }

    /// Parses a JSON task-config object against the workspace work
    /// directory. `name`, `builddir`, `build` and `clean` must be present
    /// as strings; `docker` is optional and absent means native execution.
    pub fn from_str(json_string: &str, work_dir: &str) -> (r: Result<WsTaskData, BError>)
        ensures
            match r {
                Ok(t) => {
                    &&& json_text_field(json_string@, "name"@) == Some(t.spec_name())
                    &&& json_text_field(json_string@, "builddir"@) is Some
                    &&& t.spec_build_dir() == joined_dir(
                        work_dir@,
                        json_text_field(json_string@, "builddir"@)->0,
                    )
                    &&& json_text_field(json_string@, "build"@) == Some(t.spec_build_cmd())
                    &&& json_text_field(json_string@, "clean"@) == Some(t.spec_clean_cmd())
                    &&& t.spec_docker_image() == match json_text_field(json_string@, "docker"@) {
                        Some(d) => d,
                        None => Seq::<char>::empty(),
                    }
                },
                Err(e) => {
                    &&& {
                        ||| json_text_field(json_string@, "name"@) is None
                        ||| json_text_field(json_string@, "builddir"@) is None
                        ||| json_text_field(json_string@, "build"@) is None
                        ||| json_text_field(json_string@, "clean"@) is None
                    }
                    &&& e is ConfigParseError
                },
            },
    {
        let name = match get_json_text_field(json_string, "name") {
            Some(v) => v,
            None => {
                return Err(BError::ConfigParseError(String::from_str("name")));
            },
        };
        let sub_dir = match get_json_text_field(json_string, "builddir") {
            Some(v) => v,
            None => {
                return Err(BError::ConfigParseError(String::from_str("builddir")));
            },
        };
        let build_cmd = match get_json_text_field(json_string, "build") {
            Some(v) => v,
            None => {
                return Err(BError::ConfigParseError(String::from_str("build")));
            },
        };
        let clean_cmd = match get_json_text_field(json_string, "clean") {
            Some(v) => v,
            None => {
                return Err(BError::ConfigParseError(String::from_str("clean")));
            },
        };
        let docker_image = match get_json_text_field(json_string, "docker") {
            Some(v) => v,
            None => String::new(),
        };
        let mut build_dir = work_dir.to_owned();
        build_dir.append("/");
        build_dir.append(sub_dir.as_str());
        Ok(WsTaskData { name, build_dir, build_cmd, clean_cmd, docker_image })
    }

    pub fn name(&self) -> (r: &str)
        ensures
            r@ == self.spec_name(),
    {
        self.name.as_str()
    }

    pub fn build_dir(&self) -> (r: &str)
        ensures
            r@ == self.spec_build_dir(),
    {
        self.build_dir.as_str()
    }

    pub fn build_cmd(&self) -> (r: &str)
        ensures
            r@ == self.spec_build_cmd(),
    {
        self.build_cmd.as_str()
    }

    pub fn clean_cmd(&self) -> (r: &str)
        ensures
            r@ == self.spec_clean_cmd(),
    {
        self.clean_cmd.as_str()
    }

    pub fn docker_image(&self) -> (r: &str)
        ensures
            r@ == self.spec_docker_image(),
    {
        self.docker_image.as_str()
    }

    /// True when the step names a real container image.
    pub fn requires_container(&self) -> (r: bool)
        ensures
            r == self.spec_requires_container(),
    {
        proof {
            reveal_strlit("NA");
        }
        !self.docker_image.as_str().is_empty() && !str_eq(self.docker_image.as_str(), "NA")
    }
}

} // verus!
