//! The application record: name, versions, graphics API and what the
//! configuration file attaches to it.
use vstd::prelude::*;

use crate::vk_api::{make_api_version, packed_api_version};

verus! {

/// Where the application's configuration file lies, relative to the editor.
pub const CONFIG_PATH: &'static str = "asset\\config\\app\\config.toml";

/// The graphics API the application renders with.
#[derive(Clone, Copy, PartialEq, Eq, Structural, Debug)]
pub enum GraphicAPIType {
    Soft,
    Vk,
    Ogl,
    Egl,
}

/// What the configuration file attaches to the application.
#[derive(Debug)]
pub struct ApplicationAttachment {
    pub asset_path: Option<String>,
    pub resource_path: Option<String>,
}

impl Default for ApplicationAttachment {
    fn default() -> (a: Self)
        ensures
            a.asset_path is None,
            a.resource_path is None,
    {
        ApplicationAttachment { asset_path: None, resource_path: None }
    }
}

/// The view of an optional text.
pub open spec fn opt_text(s: Option<String>) -> Option<Seq<char>> {
    match s {
        Some(t) => Some(t@),
        None => None,
    }
}

/// What the application record holds.
pub struct ApplicationView {
    pub id: u64,
    pub app_name: Seq<char>,
    pub app_version_major: u32,
    pub app_version_minor: u32,
    pub graphic_api_type: GraphicAPIType,
    pub graphic_api_version: u32,
    pub hwnd: u64,
    pub config_path: Seq<char>,
    pub asset_path: Option<Seq<char>>,
    pub resource_path: Option<Seq<char>>,
}

/// The application record.
pub struct ApplicationD {
    id: u64,
    app_name: String,
    app_version_major: u32,
    app_version_minor: u32,
    graphic_api_type: GraphicAPIType,
    graphic_api_version: u32,
    hwnd: u64,
    config_path: String,
    app_attachment: ApplicationAttachment,
}

impl View for ApplicationD {
    type V = ApplicationView;

    closed spec fn view(&self) -> ApplicationView {
        ApplicationView {
            id: self.id,
            app_name: self.app_name@,
            app_version_major: self.app_version_major,
            app_version_minor: self.app_version_minor,
            graphic_api_type: self.graphic_api_type,
            graphic_api_version: self.graphic_api_version,
            hwnd: self.hwnd,
            config_path: self.config_path@,
            asset_path: opt_text(self.app_attachment.asset_path),
            resource_path: opt_text(self.app_attachment.resource_path),
        }
    }
}

impl ApplicationD {
    /// A record with no name, version 0, the software renderer, the default
    /// configuration path and nothing attached.
    pub fn build() -> (a: Self)
        ensures
            a@.id == 0,
            a@.app_name == Seq::<char>::empty(),
            a@.app_version_major == 0,
            a@.app_version_minor == 0,
            a@.graphic_api_type == GraphicAPIType::Soft,
            a@.graphic_api_version == 0,
            a@.hwnd == 0,
            a@.config_path == CONFIG_PATH@,
            a@.asset_path is None,
            a@.resource_path is None,
    {
        ApplicationD {
            id: 0,
            app_name: String::new(),
            app_version_major: 0,
            app_version_minor: 0,
            graphic_api_type: GraphicAPIType::Soft,
            graphic_api_version: 0,
            hwnd: 0,
            config_path: String::from_str(CONFIG_PATH),
            app_attachment: ApplicationAttachment::default(),
        }
    }

    /// The record with id `id_in`.
    pub fn build_id(self, id_in: u64) -> (a: Self)
        ensures
            a@ == (ApplicationView { id: id_in, ..self@ }),
    {
        let mut a = self;
        a.id = id_in;
        a
    }

    /// The record rendering with `tin`.
    pub fn build_graphic_api(self, tin: GraphicAPIType) -> (a: Self)
        ensures
            a@ == (ApplicationView { graphic_api_type: tin, ..self@ }),
    {
        let mut a = self;
        a.graphic_api_type = tin;
        a
    }

    /// The record asking for version `major.minor` of its graphics API, which
    /// must be Vulkan (the other APIs are not supported yet).
    pub fn build_graphic_api_version(self, major: u32, minor: u32) -> (a: Self)
        requires
            self@.graphic_api_type == GraphicAPIType::Vk,
        ensures
            a@ == (ApplicationView {
                graphic_api_version: packed_api_version(0, major, minor, 0),
                ..self@
            }),
    {
        let mut a = self;
        match a.graphic_api_type {
            GraphicAPIType::Vk => {
                a.graphic_api_version = make_api_version(0, major, minor, 0);
            },
            _ => {},
        }
        a
    }

    /// The record as it is (the configuration path is not customizable yet).
    pub fn build_custom_app_config_path(self) -> (a: Self)
        ensures
            a@ == self@,
    {
        self
    }

    /// The record with what the configuration file attaches: `parsed` is the
    /// configuration block read as an attachment, `None` when it does not read
    /// as one, in which case nothing is attached.
    pub fn build_load_app_config(self, parsed: Option<ApplicationAttachment>) -> (a: Self)
        ensures
            a@ == (ApplicationView {
                asset_path: match parsed {
                    Some(p) => opt_text(p.asset_path),
                    None => None,
                },
                resource_path: match parsed {
                    Some(p) => opt_text(p.resource_path),
                    None => None,
                },
                ..self@
            }),
    {
        let mut a = self;
        a.app_attachment = match parsed {
            Some(p) => p,
            None => ApplicationAttachment::default(),
        };
        a
    }

    /// The record named `sin`.
    pub fn build_appname(self, sin: String) -> (a: Self)
        ensures
            a@ == (ApplicationView { app_name: sin@, ..self@ }),
    {
        let mut a = self;
        a.app_name = sin;
        a
    }

    /// The application's major and minor version, in that order.
    pub fn get_graphic_api_version(&self) -> (v: [u32; 2])
        ensures
            v@ == seq![self@.app_version_major, self@.app_version_minor],
    {
        let v = [self.app_version_major, self.app_version_minor];
        assert(v@ =~= seq![self@.app_version_major, self@.app_version_minor]);
        v
    }

    /// The packed version of the graphics API the application asks for.
    pub fn graphic_api_version(&self) -> (v: u32)
        ensures
            v == self@.graphic_api_version,
    {
        self.graphic_api_version
    }

    /// The graphics API the application renders with.
    pub fn graphic_api(&self) -> (t: GraphicAPIType)
        ensures
            t == self@.graphic_api_type,
    {
        self.graphic_api_type
    }

    /// The application's major version.
    pub fn get_app_version(&self) -> (v: u32)
        ensures
            v == self@.app_version_major,
    {
        self.app_version_major
    }

    /// A copy of the application's name.
    pub fn get_app_name_clone(&self) -> (s: String)
        ensures
            s@ == self@.app_name,
    {
        self.app_name.clone()
    }

    /// The application's window handle.
    pub fn get_winhandle(&self) -> (h: u64)
        ensures
            h == self@.hwnd,
    {
        self.hwnd
    }

    /// Whether the configuration attached an asset path.
    pub fn has_asset_path(&self) -> (b: bool)
        ensures
            b == self@.asset_path is Some,
    {
        self.app_attachment.asset_path.is_some()
    }

    /// The asset path that the configuration attached, which must be there.
    pub fn get_asset_path(&self) -> (p: String)
        requires
            self@.asset_path is Some,
        ensures
            Some(p@) == self@.asset_path,
    {
        self.app_attachment.asset_path.as_ref().unwrap().clone()
    }
}

/// The major version packed in a Vulkan version number.
pub open spec fn api_major_of(v: u32) -> u32 {
    (v >> 22u32) & 0x7fu32
}

/// The minor version packed in a Vulkan version number.
pub open spec fn api_minor_of(v: u32) -> u32 {
    (v >> 12u32) & 0x3ffu32
}

/// The graphics API version a record asks for reads back as the major and
/// minor version it was given, as long as they fit their fields (major below
/// 128, minor below 1024).
pub proof fn lemma_api_version_reads_back(major: u32, minor: u32)
    requires
        major < 128,
        minor < 1024,
    ensures
        api_major_of(packed_api_version(0, major, minor, 0)) == major,
        api_minor_of(packed_api_version(0, major, minor, 0)) == minor,
{
    assert(((((0u32 << 29u32) | (major << 22u32) | (minor << 12u32) | 0u32) >> 22u32) & 0x7fu32) == major)
        by (bit_vector)
        requires
            major < 128,
            minor < 1024,
    ;
    assert(((((0u32 << 29u32) | (major << 22u32) | (minor << 12u32) | 0u32) >> 12u32) & 0x3ffu32) == minor)
        by (bit_vector)
        requires
            major < 128,
            minor < 1024,
    ;
}

} // verus!
