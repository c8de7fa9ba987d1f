use vstd::prelude::*;
use vstd::string::StringExecFns;
use crate::config::WsConfigData;
use crate::context::{expand, expand_from};
use crate::ctxmap::{ctx_insert, ctx_new};
use crate::error::BError;
use crate::strutil::str_eq;

verus! {

/// Workspace settings: the work directory, the container image the tool
/// bootstraps itself into, whether containerization is disabled, and the
/// extra arguments handed to the container launch.
pub struct WsSettings {
    work_dir: String,
    docker_image: String,
    docker_disabled: bool,
    docker_args: Vec<String>,
    docker_top_dir: String,
}

impl WsSettings {
    pub closed spec fn spec_work_dir(&self) -> Seq<char> {
        self.work_dir@
    }

    pub closed spec fn spec_docker_image(&self) -> Seq<char> {
        self.docker_image@
    }

    pub closed spec fn spec_docker_disabled(&self) -> bool {
        self.docker_disabled
    }

    pub closed spec fn spec_docker_args(&self) -> Seq<Seq<char>> {
        self.docker_args.deep_view()
    }

    pub closed spec fn spec_docker_top_dir(&self) -> Seq<char> {
        self.docker_top_dir@
    }

    pub fn new(
        work_dir: String,
        docker_image: String,
        docker_disabled: bool,
        docker_args: Vec<String>,
        docker_top_dir: String,
    ) -> (r: WsSettings)
        ensures
            r.spec_work_dir() == work_dir@,
            r.spec_docker_image() == docker_image@,
            r.spec_docker_disabled() == docker_disabled,
            r.spec_docker_args() == docker_args.deep_view(),
            r.spec_docker_top_dir() == docker_top_dir@,
    {
        WsSettings { work_dir, docker_image, docker_disabled, docker_args, docker_top_dir }
    }

    pub fn work_dir(&self) -> (r: &str)
        ensures
            r@ == self.spec_work_dir(),
    {
        self.work_dir.as_str()
    }

    pub fn docker_image(&self) -> (r: &str)
        ensures
            r@ == self.spec_docker_image(),
    {
        self.docker_image.as_str()
    }

    pub fn docker_disabled(&self) -> (r: bool)
        ensures
            r == self.spec_docker_disabled(),
    {
        self.docker_disabled
    }

    pub fn docker_args(&self) -> (r: &Vec<String>)
        ensures
            r.deep_view() == self.spec_docker_args(),
    {
        &self.docker_args
    }

    pub fn docker_top_dir(&self) -> (r: &str)
        ensures
            r@ == self.spec_docker_top_dir(),
    {
        self.docker_top_dir.as_str()
    }
}

/// The in-memory model of the discovered build environment: the settings,
/// the selected build configuration, the product name, and the names of
/// the build configurations the workspace supports.
pub struct Workspace {
    settings: WsSettings,
    config: WsConfigData,
    product_name: String,
    supported_configs: Vec<String>,
}

impl Workspace {
    pub closed spec fn spec_settings(&self) -> WsSettings {
        self.settings
    }

    pub closed spec fn spec_config(&self) -> WsConfigData {
        self.config
    }

    pub closed spec fn spec_product_name(&self) -> Seq<char> {
        self.product_name@
    }

    pub closed spec fn spec_supported_configs(&self) -> Seq<Seq<char>> {
        self.supported_configs.deep_view()
    }

    /// The substitution context a workspace seeds template expansion with:
    /// its work directory and its product name.
    pub open spec fn spec_expansion_context(&self) -> Map<Seq<char>, Seq<char>> {
        Map::empty().insert("WORK_DIR"@, self.spec_settings().spec_work_dir()).insert(
            "PRODUCT_NAME"@,
            self.spec_product_name(),
        )
    }

    pub fn new(
        settings: WsSettings,
        config: WsConfigData,
        product_name: String,
        supported_configs: Vec<String>,
    ) -> (r: Workspace)
        ensures
            r.spec_settings() == settings,
            r.spec_config() == config,
            r.spec_product_name() == product_name@,
            r.spec_supported_configs() == supported_configs.deep_view(),
    {
        Workspace { settings, config, product_name, supported_configs }
    }

    pub fn settings(&self) -> (r: &WsSettings)
        ensures
            r == self.spec_settings(),
    {
        &self.settings
    }

    pub fn config(&self) -> (r: &WsConfigData)
        ensures
            r == self.spec_config(),
    {
        &self.config
    }

    pub fn product_name(&self) -> (r: &str)
        ensures
            r@ == self.spec_product_name(),
    {
        self.product_name.as_str()
    }

    /// Whether the workspace supports a build configuration of this name.
    pub fn valid_config(&self, name: &str) -> (r: bool)
        ensures
            r == self.spec_supported_configs().contains(name@),
    {
        let mut i: usize = 0;
        while i < self.supported_configs.len()
            invariant
                i <= self.supported_configs@.len(),
                forall|k: int| 0 <= k < i ==> self.spec_supported_configs()[k] != name@,
            decreases self.supported_configs@.len() - i,
        {
            if str_eq(self.supported_configs[i].as_str(), name) {
                proof {
                    assert(self.spec_supported_configs()[i as int] == name@);
                }
                return true;
            }
            i += 1;
        }
        false
    }

    /// Expands every `$#[NAME]` token of the configuration's init-env
    /// template against the workspace context, storing the expanded text.
    /// A token the context does not resolve is a hard error, and the
    /// workspace is left unchanged.
    pub fn expand_ctx(&mut self) -> (r: Result<(), BError>)
        ensures
            final(self).spec_settings() == old(self).spec_settings(),
            final(self).spec_product_name() == old(self).spec_product_name(),
            final(self).spec_supported_configs() == old(self).spec_supported_configs(),
            final(self).spec_config().spec_version() == old(self).spec_config().spec_version(),
            final(self).spec_config().spec_name() == old(self).spec_config().spec_name(),
            match r {
                Ok(()) => expand_from(
                    old(self).spec_config().spec_init_env(),
                    old(self).spec_expansion_context(),
                    0,
                ) == Some(final(self).spec_config().spec_init_env()),
                Err(e) => {
                    &&& expand_from(
                        old(self).spec_config().spec_init_env(),
                        old(self).spec_expansion_context(),
                        0,
                    ) is None
                    &&& e is ContextExpansionError
                    &&& final(self).spec_config().spec_init_env() == old(
                        self,
                    ).spec_config().spec_init_env()
                },
            },
    {
        let mut ctx = ctx_new();
        ctx_insert(&mut ctx, String::from_str("WORK_DIR"), self.settings.work_dir.clone());
        ctx_insert(&mut ctx, String::from_str("PRODUCT_NAME"), self.product_name.clone());
        let expanded = match expand(self.config.init_env(), &ctx) {
            Ok(s) => s,
            Err(e) => {
                return Err(e);
            },
        };
        self.config.set_init_env(expanded);
        Ok(())
    }
}

} // verus!
