//! Names, paths, and error shapes for everything loaded from the disk.
//!
//! The reading and decoding of the files themselves is I/O and lives outside
//! this crate's verified core; this module fixes where each kind of resource
//! lives and what a failed load reports.

use vstd::prelude::*;
use vstd::string::StringExecFns;

verus! {

/// Meant for when a resource can't be loaded.
#[derive(Debug)]
pub struct ResourceLoadError {
    pub resource_type: ResourceType,
    pub full_path: String,
    pub name: String,
    pub message: Option<String>,
    pub error_type: ResourceLoadErrorType,
}

#[derive(Clone, Copy, PartialEq, Eq, Structural, Debug)]
pub enum ResourceLoadErrorType {
    CannotFindFile,
    NoPermission,
    CannotDecode,
}

/// Resource types.
#[derive(Clone, Copy, PartialEq, Eq, Structural, Debug)]
pub enum ResourceType {
    WorldMap,
    BoatType,
    Simulation,
    GlobalSettings,
}

#[derive(Clone, Copy, PartialEq, Eq, Structural, Debug)]
pub enum ResourceEncoding {
    JSON,
    Plaintext,
    PNG,
}

impl ResourceType {
    /// How files of this resource type are encoded.
    pub open spec fn spec_encoding(self) -> ResourceEncoding {
        ResourceEncoding::JSON
    }

    /// Directory under the resource root, or the file stem for a standalone
    /// resource.
    pub open spec fn spec_dir(self) -> Seq<char> {
        match self {
            ResourceType::WorldMap => "maps/"@,
            ResourceType::BoatType => "boat_types/"@,
            ResourceType::Simulation => "simulations/"@,
            ResourceType::GlobalSettings => "global_settings"@,
        }
    }

    /// Whether the path of `spec_dir` is a folder holding one file per named
    /// resource (true) or a standalone file (false).
    pub open spec fn spec_is_folder(self) -> bool {
        !(self is GlobalSettings)
    }

    /// Where the resource called `name` lives, relative to the working
    /// directory.  A standalone resource ignores `name`.
    pub open spec fn spec_full_path(self, name: Seq<char>) -> Seq<char> {
        if self.spec_is_folder() {
            "resources/"@ + self.spec_dir() + name + self.spec_encoding().spec_extension()
        } else {
            "resources/"@ + self.spec_dir() + self.spec_encoding().spec_extension()
        }
    }

    pub fn encoding(&self) -> (r: ResourceEncoding)
        ensures
            r == self.spec_encoding(),
    {
        self.type_info().0
    }

    /// Path of the file holding the resource called `name`.
    pub fn full_path(&self, name: &str) -> (r: String)
        ensures
            r@ == self.spec_full_path(name@),
    {
        let type_info = self.type_info();
        let mut s = "resources/".to_owned();
        s.append(type_info.1);
        if type_info.2 {
            s.append(name);
        }
        let ext = type_info.0.extension();
        s.append(ext.as_str());
        s
    }

    /// (Resource encoding, path, whether the path is a folder (true) or file (false))
    fn type_info(&self) -> (r: (ResourceEncoding, &'static str, bool))
        ensures
            r.0 == self.spec_encoding(),
            r.1@ == self.spec_dir(),
            r.2 == self.spec_is_folder(),
    {
        match self {
            Self::WorldMap => (ResourceEncoding::JSON, "maps/", true),
            Self::BoatType => (ResourceEncoding::JSON, "boat_types/", true),
            Self::Simulation => (ResourceEncoding::JSON, "simulations/", true),
            Self::GlobalSettings => (ResourceEncoding::JSON, "global_settings", false),
        }
    }
}

impl ResourceEncoding {
    /// File extension, dot included.
    pub open spec fn spec_extension(self) -> Seq<char> {
        match self {
            ResourceEncoding::JSON => ".json"@,
            ResourceEncoding::Plaintext => ".txt"@,
            ResourceEncoding::PNG => ".png"@,
        }
    }

    pub fn extension(&self) -> (r: String)
        ensures
            r@ == self.spec_extension(),
    {
        match self {
            Self::JSON => ".json".to_owned(),
            Self::Plaintext => ".txt".to_owned(),
            Self::PNG => ".png".to_owned(),
        }
    }
}

/// GUI & frontend settings.
#[derive(Clone, Debug)]
pub struct GuiSettings {
    /// Whether to floodfill land on main map, may reduce performance
    pub floodfil_land: bool,
    /// Whether to show the true wind vector
    pub show_true_wind: bool,
    /// Whether to show the timer
    pub show_timer: bool,
    /// Change if the scrolling to zoom is backward
    pub reverse_scrolling: bool,
    /// Whether to show the boats path on the minimap
    pub show_tracer: bool,
    /// Whether to show all of the vectors (doesn't effect apparent wind)
    pub show_vectors: bool,
    /// Whether to show the end position with the checkered flag icon
    pub show_end_flag: bool,
    /// Whether to show the results from the performance tracker
    pub show_performance: bool,
    /// Whether to show text on boats on the main image
    pub show_boat_labels: bool,
    /// Side to display the control pain on the simulation, true=right, false=left
    pub control_panel_on_right_side: bool,
    /// Color settings
    pub colors: GuiColors,
}

/// GUI Color Settings, all colors stored as a `[u8; 4]` representing
/// `[Red, Green, Blue, Alpha]`.
#[derive(Clone, Debug)]
pub struct GuiColors {
    pub true_wind: [u8; 4],
    pub app_wind: [u8; 4],
    pub drag_force: [u8; 4],
    pub velocity: [u8; 4],
    pub rudder_force: [u8; 4],
    pub sail_force: [u8; 4],
    pub net_sail_force: [u8; 4],
    pub ocean: [u8; 4],
    pub land: [u8; 4],
    pub text_fg: [u8; 4],
    pub text_bg: [u8; 4],
    pub tracer_path: [u8; 4],
    pub net_acceleration: [u8; 4],
}

/// Contact and login data of one user.
#[derive(Clone, Debug)]
pub struct UserContact {
    pub username: String,
    pub password: String,
    pub blocked: String,
}

} // verus!
