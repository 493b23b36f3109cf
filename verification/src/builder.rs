//! Application attributes and the builder that collects them. Paths are
//! held as text.

use vstd::prelude::*;

verus! {

/// The path that `Path::join` makes of `base` and `component`.
pub uninterp spec fn joined_path(base: Seq<char>, component: Seq<char>) -> Seq<char>;

/// Calls `Path::join` of the standard library on `base`, with `component`.
#[verifier::external_body]
fn join_path(base: &str, component: &str) -> (joined: String)
    ensures
        joined@ == joined_path(base@, component@),
{
    std::path::Path::new(base).join(component).to_string_lossy().into_owned()
}

/// Calls `dirs::cache_dir`, which looks the user's cache directory up in the
/// environment. Nothing is claimed of what it finds.
#[verifier::external_body]
fn user_cache_dir() -> (found: Option<String>) {
    dirs::cache_dir().map(|path| path.to_string_lossy().into_owned())
}

/// The window system binding that shows the application.
#[derive(Clone, Copy, Debug, PartialEq, Eq, Structural)]
pub enum Backend {
    Sctk,
    Winit,
}

/// A size in pixels of the screen, or in logical pixels. A logical
/// dimension is held as the bits of its 64-bit floating-point value.
#[derive(Clone, Copy, Debug, PartialEq, Eq, Structural)]
pub enum Size {
    Physical { width: u32, height: u32 },
    Logical { width_bits: u64, height_bits: u64 },
}

/// What an application is created from.
#[derive(Clone, Debug, PartialEq, Eq)]
pub struct ApplicationAttributes {
    pub backend: Backend,
    pub inner_size: Option<Size>,
    pub title: Option<String>,
    pub app_id: Option<String>,
    pub args: Vec<String>,
    pub assets_path: String,
    pub icu_data_path: String,
    pub persistent_cache_path: String,
}

/// The attributes as a mathematical value.
pub struct Attributes {
    pub backend: Backend,
    pub inner_size: Option<Size>,
    pub title: Option<Seq<char>>,
    pub app_id: Option<Seq<char>>,
    pub args: Seq<Seq<char>>,
    pub assets_path: Seq<char>,
    pub icu_data_path: Seq<char>,
    pub persistent_cache_path: Seq<char>,
}

/// The text of an optional string.
pub open spec fn text_of(text: Option<String>) -> Option<Seq<char>> {
    match text {
        Some(text) => Some(text@),
        None => None,
    }
}

/// The texts of a list of strings.
pub open spec fn texts_of(texts: Seq<String>) -> Seq<Seq<char>> {
    Seq::new(texts.len(), |i: int| texts[i]@)
}

impl View for ApplicationAttributes {
    type V = Attributes;

    open spec fn view(&self) -> Attributes {
        Attributes {
            backend: self.backend,
            inner_size: self.inner_size,
            title: text_of(self.title),
            app_id: text_of(self.app_id),
            args: texts_of(self.args@),
            assets_path: self.assets_path@,
            icu_data_path: self.icu_data_path@,
            persistent_cache_path: self.persistent_cache_path@,
        }
    }
}

impl Attributes {
    /// The attributes that a builder starts from.
    pub open spec fn initial() -> Attributes {
        Attributes {
            backend: Backend::Sctk,
            inner_size: None,
            title: None,
            app_id: None,
            args: Seq::empty(),
            assets_path: Seq::empty(),
            icu_data_path: Seq::empty(),
            persistent_cache_path: Seq::empty(),
        }
    }

    /// The application id, or the empty text if there is none.
    pub open spec fn app_id_or_empty(self) -> Seq<char> {
        match self.app_id {
            Some(app_id) => app_id,
            None => Seq::empty(),
        }
    }

    /// Whether the cache path is to be derived from the user's cache
    /// directory: it is empty and there is an application id to name it by.
    pub open spec fn needs_cache_dir(self) -> bool {
        self.persistent_cache_path.len() == 0 && self.app_id_or_empty().len() > 0
    }

    /// Whether a path is to be derived from the directory of the executable:
    /// the assets path or the ICU data path is empty.
    pub open spec fn needs_executable_dir(self) -> bool {
        self.assets_path.len() == 0 || self.icu_data_path.len() == 0
    }

    /// The attributes with the empty paths filled in. `cache_dir` is the
    /// user's cache directory and `executable_dir` the directory of the
    /// executable, each `None` if it could not be found. An empty cache path
    /// becomes the directory named by the application id below the cache
    /// directory, or stays empty without a cache directory. Empty assets and
    /// ICU data paths become the files below `data` in the executable's
    /// directory, or stay empty without it.
    pub open spec fn with_default_paths(
        self,
        cache_dir: Option<Seq<char>>,
        executable_dir: Option<Seq<char>>,
    ) -> Attributes {
        let persistent_cache_path = if self.needs_cache_dir() {
            match cache_dir {
                Some(cache_dir) => joined_path(cache_dir, self.app_id_or_empty()),
                None => Seq::empty(),
            }
        } else {
            self.persistent_cache_path
        };
        let (assets_path, icu_data_path) = match executable_dir {
            Some(executable_dir) => (
                if self.assets_path.len() == 0 {
                    joined_path(joined_path(executable_dir, "data"@), "flutter_assets"@)
                } else {
                    self.assets_path
                },
                if self.icu_data_path.len() == 0 {
                    joined_path(joined_path(executable_dir, "data"@), "icudtl.dat"@)
                } else {
                    self.icu_data_path
                },
            ),
            None => (self.assets_path, self.icu_data_path),
        };
        Attributes { persistent_cache_path, assets_path, icu_data_path, ..self }
    }
}

impl ApplicationAttributes {
    /// Attributes with nothing set.
    pub fn new() -> (attributes: ApplicationAttributes)
        ensures
            attributes@ == Attributes::initial(),
    {
        let attributes = ApplicationAttributes {
            backend: Backend::Sctk,
            inner_size: None,
            title: None,
            app_id: None,
            args: Vec::new(),
            assets_path: String::new(),
            icu_data_path: String::new(),
            persistent_cache_path: String::new(),
        };
        assert(attributes@.args =~= Seq::empty());
        attributes
    }
}

impl Default for ApplicationAttributes {
    fn default() -> (attributes: ApplicationAttributes)
        ensures
            attributes@ == Attributes::initial(),
    {
        ApplicationAttributes::new()
    }
}

/// Collects the attributes of an application before it is created.
#[derive(Clone, Debug, PartialEq, Eq)]
pub struct ApplicationBuilder {
    attributes: ApplicationAttributes,
}

impl View for ApplicationBuilder {
    type V = Attributes;

    closed spec fn view(&self) -> Attributes {
        self.attributes@
    }
}

impl Default for ApplicationBuilder {
    fn default() -> (builder: ApplicationBuilder)
        ensures
            builder@ == Attributes::initial(),
    {
        ApplicationBuilder::new()
    }
}

impl ApplicationBuilder {
    /// A builder with nothing set.
    pub fn new() -> (builder: ApplicationBuilder)
        ensures
            builder@ == Attributes::initial(),
    {
        ApplicationBuilder { attributes: ApplicationAttributes::new() }
    }

    /// The attributes collected so far.
    pub fn attributes(&self) -> (attributes: &ApplicationAttributes)
        ensures
            attributes@ == self@,
    {
        &self.attributes
    }

    pub fn with_backend(self, backend: Backend) -> (builder: ApplicationBuilder)
        ensures
            builder@ == (Attributes { backend, ..self@ }),
    {
        let mut builder = self;
        builder.attributes.backend = backend;
        builder
    }

    pub fn with_inner_size(self, size: Size) -> (builder: ApplicationBuilder)
        ensures
            builder@ == (Attributes { inner_size: Some(size), ..self@ }),
    {
        let mut builder = self;
        builder.attributes.inner_size = Some(size);
        builder
    }

    pub fn with_title(self, title: String) -> (builder: ApplicationBuilder)
        ensures
            builder@ == (Attributes { title: Some(title@), ..self@ }),
    {
        let mut builder = self;
        builder.attributes.title = Some(title);
        builder
    }

    pub fn with_app_id(self, app_id: String) -> (builder: ApplicationBuilder)
        ensures
            builder@ == (Attributes { app_id: Some(app_id@), ..self@ }),
    {
        let mut builder = self;
        builder.attributes.app_id = Some(app_id);
        builder
    }

    /// Adds one argument for the engine, after those already there.
    pub fn with_arg(self, arg: String) -> (builder: ApplicationBuilder)
        ensures
            builder@ == (Attributes { args: self@.args.push(arg@), ..self@ }),
    {
        let mut builder = self;
        let ghost before = builder@;
        builder.attributes.args.push(arg);
        assert(builder@.args =~= before.args.push(arg@));
        builder
    }

    /// Adds arguments for the engine, in their order, after those already
    /// there.
    pub fn with_args(self, args: Vec<String>) -> (builder: ApplicationBuilder)
        ensures
            builder@ == (Attributes { args: self@.args + texts_of(args@), ..self@ }),
    {
        let mut builder = self;
        let mut args = args;
        let ghost added = args@;
        let ghost before = builder@;
        builder.attributes.args.append(&mut args);
        assert(builder@.args =~= before.args + texts_of(added));
        builder
    }

    pub fn with_assets_path(self, path: String) -> (builder: ApplicationBuilder)
        ensures
            builder@ == (Attributes { assets_path: path@, ..self@ }),
    {
        let mut builder = self;
        builder.attributes.assets_path = path;
        builder
    }

    pub fn with_icu_data_path(self, path: String) -> (builder: ApplicationBuilder)
        ensures
            builder@ == (Attributes { icu_data_path: path@, ..self@ }),
    {
        let mut builder = self;
        builder.attributes.icu_data_path = path;
        builder
    }

    pub fn with_persistent_cache_path(self, path: String) -> (builder: ApplicationBuilder)
        ensures
            builder@ == (Attributes { persistent_cache_path: path@, ..self@ }),
    {
        let mut builder = self;
        builder.attributes.persistent_cache_path = path;
        builder
    }

    /// Whether the cache path will be derived from the user's cache
    /// directory, see [`Attributes::needs_cache_dir`].
    pub fn needs_cache_dir(&self) -> (needed: bool)
        ensures
            needed == self@.needs_cache_dir(),
    {
        let has_app_id = match &self.attributes.app_id {
            Some(app_id) => !app_id.as_str().is_empty(),
            None => false,
        };
        self.attributes.persistent_cache_path.as_str().is_empty() && has_app_id
    }

    /// Whether a path will be derived from the directory of the executable,
    /// see [`Attributes::needs_executable_dir`]. A caller that has to look
    /// the directory up can spare itself the work if not.
    pub fn needs_executable_dir(&self) -> (needed: bool)
        ensures
            needed == self@.needs_executable_dir(),
    {
        self.attributes.assets_path.as_str().is_empty()
            || self.attributes.icu_data_path.as_str().is_empty()
    }

    /// Fills in the empty paths from the two directories given, see
    /// [`Attributes::with_default_paths`].
    pub fn apply_default_paths(&mut self, cache_dir: Option<String>, executable_dir: Option<String>)
        ensures
            final(self)@ == old(self)@.with_default_paths(
                text_of(cache_dir),
                text_of(executable_dir),
            ),
    {
        if self.needs_cache_dir() {
            let app_id = match &self.attributes.app_id {
                Some(app_id) => app_id.clone(),
                None => String::new(),
            };
            self.attributes.persistent_cache_path = match &cache_dir {
                Some(cache_dir) => join_path(cache_dir.as_str(), app_id.as_str()),
                None => String::new(),
            };
        }
        if !self.attributes.assets_path.as_str().is_empty()
            && !self.attributes.icu_data_path.as_str().is_empty() {
            return;
        }
        let executable_dir = match executable_dir {
            Some(executable_dir) => executable_dir,
            None => {
                return;
            },
        };
        if self.attributes.assets_path.as_str().is_empty() {
            let data = join_path(executable_dir.as_str(), "data");
            self.attributes.assets_path = join_path(data.as_str(), "flutter_assets");
        }
        if self.attributes.icu_data_path.as_str().is_empty() {
            let data = join_path(executable_dir.as_str(), "data");
            self.attributes.icu_data_path = join_path(data.as_str(), "icudtl.dat");
        }
    }

    /// Fills in the empty paths. The user's cache directory is looked up if
    /// the cache path is to be derived from it; `executable_dir` is the
    /// directory of the executable, `None` if it could not be found.
    /// Whatever the look-up gives, the outcome is that of
    /// [`ApplicationBuilder::apply_default_paths`] with it.
    pub fn use_default_paths_if_empty(&mut self, executable_dir: Option<String>)
        ensures
            exists|cache_dir: Option<Seq<char>>|
                final(self)@ == old(self)@.with_default_paths(cache_dir, text_of(executable_dir)),
            !old(self)@.needs_cache_dir() ==> final(self)@ == old(self)@.with_default_paths(
                None,
                text_of(executable_dir),
            ),
    {
        let cache_dir = if self.needs_cache_dir() {
            user_cache_dir()
        } else {
            None
        };
        self.apply_default_paths(cache_dir, executable_dir);
        assert(final(self)@ == old(self)@.with_default_paths(
            text_of(cache_dir),
            text_of(executable_dir),
        ));
    }

    /// Finishes the attributes: the empty paths are filled in, see
    /// [`ApplicationBuilder::use_default_paths_if_empty`], and the
    /// attributes are handed out for the application to be created from.
    pub fn build(self, executable_dir: Option<String>) -> (attributes: ApplicationAttributes)
        ensures
            exists|cache_dir: Option<Seq<char>>|
                attributes@ == self@.with_default_paths(cache_dir, text_of(executable_dir)),
            !self@.needs_cache_dir() ==> attributes@ == self@.with_default_paths(
                None,
                text_of(executable_dir),
            ),
    {
        let mut builder = self;
        builder.use_default_paths_if_empty(executable_dir);
        builder.attributes
    }
}

} // verus!
