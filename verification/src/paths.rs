//! Where things are kept: the directories that the platform resolved, and
//! the paths of the store file and of the asset directories below the base
//! storage directory.
//!
//! Paths are texts with `/` between their components.

use crate::text::followed_by;
use vstd::prelude::*;
use vstd::string::StrSliceExecFns;
use vstd::string::StringExecFns;

verus! {

/// `name` below `base`: `name` alone where it starts at the root or `base` is
/// empty, else `base`, one `/` unless `base` already ends with it, and `name`.
pub open spec fn joined(base: Seq<char>, name: Seq<char>) -> Seq<char> {
    if name.len() > 0 && name[0] == '/' {
        name
    } else if base.len() == 0 || base.last() == '/' {
        base + name
    } else {
        base + seq!['/'] + name
    }
}

/// The path of `name` below `base`.
pub fn join(base: &str, name: &str) -> (r: String)
    ensures
        r@ == joined(base@, name@),
{
    proof {
        reveal_strlit("/");
    }
    let name_len = name.unicode_len();
    if name_len > 0 && name.get_char(0) == '/' {
        return String::from_str(name);
    }
    let base_len = base.unicode_len();
    if base_len == 0 || base.get_char(base_len - 1) == '/' {
        return followed_by(base, name);
    }
    let mut r = followed_by(base, "/");
    r.append(name);
    assert("/"@ =~= seq!['/']);
    r
}

/// The text of a directory that the platform may have failed to resolve: the
/// empty text where it did.
pub open spec fn resolved_or_empty(dir: Option<String>) -> Seq<char> {
    match dir {
        Some(s) => s@,
        None => Seq::empty(),
    }
}

fn take_or_empty(dir: &Option<String>) -> (r: String)
    ensures
        r@ == resolved_or_empty(*dir),
{
    match dir {
        Some(s) => s.clone(),
        None => String::new(),
    }
}

/// The directories as the platform resolved them, `None` for each one that it
/// could not resolve, and whether this is a development build.
pub struct PlatformDirs {
    pub app_cache_dir: Option<String>,
    pub app_config_dir: Option<String>,
    pub app_data_dir: Option<String>,
    pub app_local_data_dir: Option<String>,
    pub app_log_dir: Option<String>,
    pub audio_dir: Option<String>,
    pub cache_dir: Option<String>,
    pub config_dir: Option<String>,
    pub data_dir: Option<String>,
    pub desktop_dir: Option<String>,
    pub document_dir: Option<String>,
    pub download_dir: Option<String>,
    pub executable_dir: Option<String>,
    pub font_dir: Option<String>,
    pub home_dir: Option<String>,
    pub local_data_dir: Option<String>,
    pub picture_dir: Option<String>,
    pub public_dir: Option<String>,
    pub resource_dir: Option<String>,
    pub runtime_dir: Option<String>,
    pub temp_dir: Option<String>,
    pub template_dir: Option<String>,
    pub dev: bool,
}

impl PlatformDirs {
    /// Directories of which the platform resolved none, in a production
    /// build.
    pub fn unresolved() -> (r: PlatformDirs)
        ensures
            paths_from(r) == empty_paths_with_derived(),
            r.dev == false,
            r.app_cache_dir is None,
            r.app_config_dir is None,
            r.app_data_dir is None,
            r.app_local_data_dir is None,
            r.app_log_dir is None,
            r.audio_dir is None,
            r.cache_dir is None,
            r.config_dir is None,
            r.data_dir is None,
            r.desktop_dir is None,
            r.document_dir is None,
            r.download_dir is None,
            r.executable_dir is None,
            r.font_dir is None,
            r.home_dir is None,
            r.local_data_dir is None,
            r.picture_dir is None,
            r.public_dir is None,
            r.resource_dir is None,
            r.runtime_dir is None,
            r.temp_dir is None,
            r.template_dir is None,
    {
        PlatformDirs {
            app_cache_dir: None,
            app_config_dir: None,
            app_data_dir: None,
            app_local_data_dir: None,
            app_log_dir: None,
            audio_dir: None,
            cache_dir: None,
            config_dir: None,
            data_dir: None,
            desktop_dir: None,
            document_dir: None,
            download_dir: None,
            executable_dir: None,
            font_dir: None,
            home_dir: None,
            local_data_dir: None,
            picture_dir: None,
            public_dir: None,
            resource_dir: None,
            runtime_dir: None,
            temp_dir: None,
            template_dir: None,
            dev: false,
        }
    }
}

/// The paths that are derived where no directory is resolved: the three
/// directories of the application's own are relative, all others empty.
pub open spec fn empty_paths_with_derived() -> AppPathsView {
    AppPathsView {
        data_path: "appdata"@,
        local_res_path: "res"@,
        local_data_path: "data"@,
        ..empty_paths()
    }
}

/// The directories that the application works with.
pub struct AppPaths {
    app_cache_dir: String,
    app_config_dir: String,
    app_data_dir: String,
    app_local_data_dir: String,
    app_log_dir: String,
    audio_dir: String,
    cache_dir: String,
    config_dir: String,
    data_dir: String,
    desktop_dir: String,
    document_dir: String,
    download_dir: String,
    executable_dir: String,
    font_dir: String,
    home_dir: String,
    local_data_dir: String,
    picture_dir: String,
    public_dir: String,
    resource_dir: String,
    runtime_dir: String,
    temp_dir: String,
    template_dir: String,
    data_path: String,
    local_res_path: String,
    local_data_path: String,
    dev: bool,
}

/// What an [`AppPaths`] holds, each path as a sequence of characters.
pub struct AppPathsView {
    pub app_cache_dir: Seq<char>,
    pub app_config_dir: Seq<char>,
    pub app_data_dir: Seq<char>,
    pub app_local_data_dir: Seq<char>,
    pub app_log_dir: Seq<char>,
    pub audio_dir: Seq<char>,
    pub cache_dir: Seq<char>,
    pub config_dir: Seq<char>,
    pub data_dir: Seq<char>,
    pub desktop_dir: Seq<char>,
    pub document_dir: Seq<char>,
    pub download_dir: Seq<char>,
    pub executable_dir: Seq<char>,
    pub font_dir: Seq<char>,
    pub home_dir: Seq<char>,
    pub local_data_dir: Seq<char>,
    pub picture_dir: Seq<char>,
    pub public_dir: Seq<char>,
    pub resource_dir: Seq<char>,
    pub runtime_dir: Seq<char>,
    pub temp_dir: Seq<char>,
    pub template_dir: Seq<char>,
    pub data_path: Seq<char>,
    pub local_res_path: Seq<char>,
    pub local_data_path: Seq<char>,
    pub dev: bool,
}

impl View for AppPaths {
    type V = AppPathsView;

    closed spec fn view(&self) -> AppPathsView {
        AppPathsView {
            app_cache_dir: self.app_cache_dir@,
            app_config_dir: self.app_config_dir@,
            app_data_dir: self.app_data_dir@,
            app_local_data_dir: self.app_local_data_dir@,
            app_log_dir: self.app_log_dir@,
            audio_dir: self.audio_dir@,
            cache_dir: self.cache_dir@,
            config_dir: self.config_dir@,
            data_dir: self.data_dir@,
            desktop_dir: self.desktop_dir@,
            document_dir: self.document_dir@,
            download_dir: self.download_dir@,
            executable_dir: self.executable_dir@,
            font_dir: self.font_dir@,
            home_dir: self.home_dir@,
            local_data_dir: self.local_data_dir@,
            picture_dir: self.picture_dir@,
            public_dir: self.public_dir@,
            resource_dir: self.resource_dir@,
            runtime_dir: self.runtime_dir@,
            temp_dir: self.temp_dir@,
            template_dir: self.template_dir@,
            data_path: self.data_path@,
            local_res_path: self.local_res_path@,
            local_data_path: self.local_data_path@,
            dev: self.dev,
        }
    }
}

/// The paths that [`AppPaths::init`] derives from `dirs`.
pub open spec fn paths_from(dirs: PlatformDirs) -> AppPathsView {
    AppPathsView {
        app_cache_dir: resolved_or_empty(dirs.app_cache_dir),
        app_config_dir: resolved_or_empty(dirs.app_config_dir),
        app_data_dir: resolved_or_empty(dirs.app_data_dir),
        app_local_data_dir: resolved_or_empty(dirs.app_local_data_dir),
        app_log_dir: resolved_or_empty(dirs.app_log_dir),
        audio_dir: resolved_or_empty(dirs.audio_dir),
        cache_dir: resolved_or_empty(dirs.cache_dir),
        config_dir: resolved_or_empty(dirs.config_dir),
        data_dir: resolved_or_empty(dirs.data_dir),
        desktop_dir: resolved_or_empty(dirs.desktop_dir),
        document_dir: resolved_or_empty(dirs.document_dir),
        download_dir: resolved_or_empty(dirs.download_dir),
        executable_dir: resolved_or_empty(dirs.executable_dir),
        font_dir: resolved_or_empty(dirs.font_dir),
        home_dir: resolved_or_empty(dirs.home_dir),
        local_data_dir: resolved_or_empty(dirs.local_data_dir),
        picture_dir: resolved_or_empty(dirs.picture_dir),
        public_dir: resolved_or_empty(dirs.public_dir),
        resource_dir: resolved_or_empty(dirs.resource_dir),
        runtime_dir: resolved_or_empty(dirs.runtime_dir),
        temp_dir: resolved_or_empty(dirs.temp_dir),
        template_dir: resolved_or_empty(dirs.template_dir),
        data_path: joined(resolved_or_empty(dirs.app_data_dir), "appdata"@),
        local_res_path: joined(resolved_or_empty(dirs.resource_dir), "res"@),
        local_data_path: joined(resolved_or_empty(dirs.resource_dir), "data"@),
        dev: dirs.dev,
    }
}

/// The paths before anything was resolved: every one empty, in a production
/// build.
pub open spec fn empty_paths() -> AppPathsView {
    AppPathsView {
        app_cache_dir: Seq::empty(),
        app_config_dir: Seq::empty(),
        app_data_dir: Seq::empty(),
        app_local_data_dir: Seq::empty(),
        app_log_dir: Seq::empty(),
        audio_dir: Seq::empty(),
        cache_dir: Seq::empty(),
        config_dir: Seq::empty(),
        data_dir: Seq::empty(),
        desktop_dir: Seq::empty(),
        document_dir: Seq::empty(),
        download_dir: Seq::empty(),
        executable_dir: Seq::empty(),
        font_dir: Seq::empty(),
        home_dir: Seq::empty(),
        local_data_dir: Seq::empty(),
        picture_dir: Seq::empty(),
        public_dir: Seq::empty(),
        resource_dir: Seq::empty(),
        runtime_dir: Seq::empty(),
        temp_dir: Seq::empty(),
        template_dir: Seq::empty(),
        data_path: Seq::empty(),
        local_res_path: Seq::empty(),
        local_data_path: Seq::empty(),
        dev: false,
    }
}

impl AppPaths {
    /// Paths of which none is resolved yet.
    pub fn new() -> (r: AppPaths)
        ensures
            r@ == empty_paths(),
    {
        AppPaths {
            app_cache_dir: String::new(),
            app_config_dir: String::new(),
            app_data_dir: String::new(),
            app_local_data_dir: String::new(),
            app_log_dir: String::new(),
            audio_dir: String::new(),
            cache_dir: String::new(),
            config_dir: String::new(),
            data_dir: String::new(),
            desktop_dir: String::new(),
            document_dir: String::new(),
            download_dir: String::new(),
            executable_dir: String::new(),
            font_dir: String::new(),
            home_dir: String::new(),
            local_data_dir: String::new(),
            picture_dir: String::new(),
            public_dir: String::new(),
            resource_dir: String::new(),
            runtime_dir: String::new(),
            temp_dir: String::new(),
            template_dir: String::new(),
            data_path: String::new(),
            local_res_path: String::new(),
            local_data_path: String::new(),
            dev: false,
        }
    }

    /// Takes over the directories that the platform resolved, and derives the
    /// application's own directories from them.
    pub fn init(&mut self, dirs: &PlatformDirs)
        ensures
            final(self)@ == paths_from(*dirs),
    {
        self.app_cache_dir = take_or_empty(&dirs.app_cache_dir);
        self.app_config_dir = take_or_empty(&dirs.app_config_dir);
        self.app_data_dir = take_or_empty(&dirs.app_data_dir);
        self.app_local_data_dir = take_or_empty(&dirs.app_local_data_dir);
        self.app_log_dir = take_or_empty(&dirs.app_log_dir);
        self.audio_dir = take_or_empty(&dirs.audio_dir);
        self.cache_dir = take_or_empty(&dirs.cache_dir);
        self.config_dir = take_or_empty(&dirs.config_dir);
        self.data_dir = take_or_empty(&dirs.data_dir);
        self.desktop_dir = take_or_empty(&dirs.desktop_dir);
        self.document_dir = take_or_empty(&dirs.document_dir);
        self.download_dir = take_or_empty(&dirs.download_dir);
        self.executable_dir = take_or_empty(&dirs.executable_dir);
        self.font_dir = take_or_empty(&dirs.font_dir);
        self.home_dir = take_or_empty(&dirs.home_dir);
        self.local_data_dir = take_or_empty(&dirs.local_data_dir);
        self.picture_dir = take_or_empty(&dirs.picture_dir);
        self.public_dir = take_or_empty(&dirs.public_dir);
        self.resource_dir = take_or_empty(&dirs.resource_dir);
        self.runtime_dir = take_or_empty(&dirs.runtime_dir);
        self.temp_dir = take_or_empty(&dirs.temp_dir);
        self.template_dir = take_or_empty(&dirs.template_dir);
        self.data_path = join(self.app_data_dir.as_str(), "appdata");
        self.local_res_path = join(self.resource_dir.as_str(), "res");
        self.local_data_path = join(self.resource_dir.as_str(), "data");
        self.dev = dirs.dev;
    }

    /// The application's cache directory; empty where the platform has none.
    pub fn app_cache_dir(&self) -> (r: String)
        ensures
            r@ == self@.app_cache_dir,
    {
        self.app_cache_dir.clone()
    }

    /// The application's configuration directory; empty where the platform has none.
    pub fn app_config_dir(&self) -> (r: String)
        ensures
            r@ == self@.app_config_dir,
    {
        self.app_config_dir.clone()
    }

    /// The application's data directory; empty where the platform has none.
    pub fn app_data_dir(&self) -> (r: String)
        ensures
            r@ == self@.app_data_dir,
    {
        self.app_data_dir.clone()
    }

    /// The application's local data directory; empty where the platform has none.
    pub fn app_local_data_dir(&self) -> (r: String)
        ensures
            r@ == self@.app_local_data_dir,
    {
        self.app_local_data_dir.clone()
    }

    /// The application's log directory; empty where the platform has none.
    pub fn app_log_dir(&self) -> (r: String)
        ensures
            r@ == self@.app_log_dir,
    {
        self.app_log_dir.clone()
    }

    /// The user's audio directory; empty where the platform has none.
    pub fn audio_dir(&self) -> (r: String)
        ensures
            r@ == self@.audio_dir,
    {
        self.audio_dir.clone()
    }

    /// The user's cache directory; empty where the platform has none.
    pub fn cache_dir(&self) -> (r: String)
        ensures
            r@ == self@.cache_dir,
    {
        self.cache_dir.clone()
    }

    /// The user's configuration directory; empty where the platform has none.
    pub fn config_dir(&self) -> (r: String)
        ensures
            r@ == self@.config_dir,
    {
        self.config_dir.clone()
    }

    /// The user's data directory; empty where the platform has none.
    pub fn data_dir(&self) -> (r: String)
        ensures
            r@ == self@.data_dir,
    {
        self.data_dir.clone()
    }

    /// The user's desktop directory; empty where the platform has none.
    pub fn desktop_dir(&self) -> (r: String)
        ensures
            r@ == self@.desktop_dir,
    {
        self.desktop_dir.clone()
    }

    /// The user's document directory; empty where the platform has none.
    pub fn document_dir(&self) -> (r: String)
        ensures
            r@ == self@.document_dir,
    {
        self.document_dir.clone()
    }

    /// The user's download directory; empty where the platform has none.
    pub fn download_dir(&self) -> (r: String)
        ensures
            r@ == self@.download_dir,
    {
        self.download_dir.clone()
    }

    /// The user's executable directory; empty where the platform has none.
    pub fn executable_dir(&self) -> (r: String)
        ensures
            r@ == self@.executable_dir,
    {
        self.executable_dir.clone()
    }

    /// The user's font directory; empty where the platform has none.
    pub fn font_dir(&self) -> (r: String)
        ensures
            r@ == self@.font_dir,
    {
        self.font_dir.clone()
    }

    /// The user's home directory; empty where the platform has none.
    pub fn home_dir(&self) -> (r: String)
        ensures
            r@ == self@.home_dir,
    {
        self.home_dir.clone()
    }

    /// The user's local data directory; empty where the platform has none.
    pub fn local_data_dir(&self) -> (r: String)
        ensures
            r@ == self@.local_data_dir,
    {
        self.local_data_dir.clone()
    }

    /// The user's picture directory; empty where the platform has none.
    pub fn picture_dir(&self) -> (r: String)
        ensures
            r@ == self@.picture_dir,
    {
        self.picture_dir.clone()
    }

    /// The user's public directory; empty where the platform has none.
    pub fn public_dir(&self) -> (r: String)
        ensures
            r@ == self@.public_dir,
    {
        self.public_dir.clone()
    }

    /// The application's resource directory; empty where the platform has none.
    pub fn resource_dir(&self) -> (r: String)
        ensures
            r@ == self@.resource_dir,
    {
        self.resource_dir.clone()
    }

    /// The user's runtime directory; empty where the platform has none.
    pub fn runtime_dir(&self) -> (r: String)
        ensures
            r@ == self@.runtime_dir,
    {
        self.runtime_dir.clone()
    }

    /// The directory for temporary files; empty where the platform has none.
    pub fn temp_dir(&self) -> (r: String)
        ensures
            r@ == self@.temp_dir,
    {
        self.temp_dir.clone()
    }

    /// The user's template directory; empty where the platform has none.
    pub fn template_dir(&self) -> (r: String)
        ensures
            r@ == self@.template_dir,
    {
        self.template_dir.clone()
    }

    /// The `appdata` directory under the application's data directory.
    pub fn data_path(&self) -> (r: String)
        ensures
            r@ == self@.data_path,
    {
        self.data_path.clone()
    }

    /// The `res` directory under the resource directory.
    pub fn local_res_path(&self) -> (r: String)
        ensures
            r@ == self@.local_res_path,
    {
        self.local_res_path.clone()
    }

    /// The `data` directory under the resource directory.
    pub fn local_data_path(&self) -> (r: String)
        ensures
            r@ == self@.local_data_path,
    {
        self.local_data_path.clone()
    }
}

/// Whether the application runs in a development build.
pub fn is_dev_environment(paths: &AppPaths) -> (r: bool)
    ensures
        r == paths@.dev,
{
    paths.dev
}

/// The directory below which the store file and all assets are kept: the
/// application's data directory.
pub fn get_base_storage_path(paths: &AppPaths) -> (r: String)
    ensures
        r@ == paths@.app_data_dir,
{
    paths.app_data_dir()
}

/// The directory `folder_name` below the base storage directory.
pub fn get_storage_path(paths: &AppPaths, folder_name: &str) -> (r: String)
    ensures
        r@ == joined(paths@.app_data_dir, folder_name@),
{
    let base = get_base_storage_path(paths);
    join(base.as_str(), folder_name)
}

/// The path of the image `image_name` in the image directory.
pub fn get_image_path(paths: &AppPaths, image_name: &str) -> (r: String)
    ensures
        r@ == joined(joined(paths@.app_data_dir, "images"@), image_name@),
{
    let images = get_storage_path(paths, "images");
    join(images.as_str(), image_name)
}

/// The address of the store file `vocabulary.db` in the base storage
/// directory.
pub fn get_db_url(paths: &AppPaths) -> (r: String)
    ensures
        r@ == "sqlite:///"@ + paths@.app_data_dir + "/vocabulary.db"@,
{
    let base = get_base_storage_path(paths);
    let mut r = followed_by("sqlite:///", base.as_str());
    r.append("/vocabulary.db");
    r
}

} // verus!
