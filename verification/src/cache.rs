//! User-level caches: their kinds, categories, locations and cleanup hints.
use vstd::prelude::*;
use crate::sys::{byte_size_display, byte_size_text};
use crate::text::{concat3, has_prefix};

verus! {

/// Categories for grouping caches in output
#[derive(Debug, Clone, Copy, PartialEq, Eq, Hash, Structural)]
pub enum CacheCategory {
    /// AI/ML model caches (Hugging Face, Ollama, PyTorch)
    AiMl,
    /// Package manager caches (npm, yarn, cargo, pip, etc.)
    PackageManager,
    /// Development tool caches (Xcode, Android SDK)
    Development,
    /// IDE caches (JetBrains, VSCode)
    Ide,
    /// Container caches (Docker) - requires special commands
    Container,
}

pub open spec fn category_icon(c: CacheCategory) -> Seq<char> {
    match c {
        CacheCategory::AiMl => "\u{1F916}"@,
        CacheCategory::PackageManager => "\u{1F4E6}"@,
        CacheCategory::Development => "\u{1F6E0}"@,
        CacheCategory::Ide => "\u{1F4BB}"@,
        CacheCategory::Container => "\u{1F40B}"@,
    }
}

pub open spec fn category_label(c: CacheCategory) -> Seq<char> {
    match c {
        CacheCategory::AiMl => "AI/ML"@,
        CacheCategory::PackageManager => "Package managers"@,
        CacheCategory::Development => "Development"@,
        CacheCategory::Ide => "IDE"@,
        CacheCategory::Container => "Container"@,
    }
}

/// The variant's name, as `{:?}` prints it.
pub open spec fn category_name(c: CacheCategory) -> Seq<char> {
    match c {
        CacheCategory::AiMl => "AiMl"@,
        CacheCategory::PackageManager => "PackageManager"@,
        CacheCategory::Development => "Development"@,
        CacheCategory::Ide => "Ide"@,
        CacheCategory::Container => "Container"@,
    }
}

impl CacheCategory {
    /// Get the icon for this category
    pub fn icon(&self) -> (r: &'static str)
        ensures
            r@ == category_icon(*self),
    {
        match self {
            CacheCategory::AiMl => "\u{1F916}",
            CacheCategory::PackageManager => "\u{1F4E6}",
            CacheCategory::Development => "\u{1F6E0}",
            CacheCategory::Ide => "\u{1F4BB}",
            CacheCategory::Container => "\u{1F40B}",
        }
    }

    /// Get the label for this category
    pub fn label(&self) -> (r: &'static str)
        ensures
            r@ == category_label(*self),
    {
        match self {
            CacheCategory::AiMl => "AI/ML",
            CacheCategory::PackageManager => "Package managers",
            CacheCategory::Development => "Development",
            CacheCategory::Ide => "IDE",
            CacheCategory::Container => "Container",
        }
    }

    /// The variant's name (what `{:?}` prints for it).
    pub fn variant_name(&self) -> (r: &'static str)
        ensures
            r@ == category_name(*self),
    {
        match self {
            CacheCategory::AiMl => "AiMl",
            CacheCategory::PackageManager => "PackageManager",
            CacheCategory::Development => "Development",
            CacheCategory::Ide => "Ide",
            CacheCategory::Container => "Container",
        }
    }

    /// Icon and label separated by a space (the category's display form).
    pub fn display_text(&self) -> (r: String)
        ensures
            r@ == category_icon(*self) + " "@ + category_label(*self),
    {
        concat3(self.icon(), " ", self.label())
    }
}

/// Supported user-level cache types
#[derive(Debug, Clone, Copy, PartialEq, Eq, Hash, Structural)]
pub enum CacheType {
    // AI/ML - High Priority (often 10-100GB)
    HuggingFace,
    Ollama,
    PyTorch,
    LmStudio,
    // Package Managers - High Priority
    Npm,
    Yarn,
    Pnpm,
    CargoRegistry,
    CargoGit,
    GradleCache,
    GradleWrapper,
    MavenRepository,
    PubCache,
    Pip,
    CocoaPods,
    RubyGems,
    // Development - High Priority (macOS)
    XcodeDerivedData,
    XcodeDeviceSupport,
    XcodeArchives,
    // IDE - Medium Priority
    JetBrainsCache,
    VSCodeCache,
    VSCodeServer,
    // Container - Requires special command
    Docker,
    // Language Caches
    GoBuild,
    PreCommit,
}

pub open spec fn cache_type_icon(t: CacheType) -> Seq<char> {
    match t {
        CacheType::HuggingFace => "\u{1F917}"@,
        CacheType::Ollama => "\u{1F999}"@,
        CacheType::PyTorch => "\u{1F525}"@,
        CacheType::LmStudio => "\u{1F4AC}"@,
        CacheType::Npm => "\u{1F4E6}"@,
        CacheType::Yarn => "\u{1F9F6}"@,
        CacheType::Pnpm => "\u{1F4E6}"@,
        CacheType::CargoRegistry => "\u{1F980}"@,
        CacheType::CargoGit => "\u{1F980}"@,
        CacheType::GradleCache => "\u{1F418}"@,
        CacheType::GradleWrapper => "\u{1F418}"@,
        CacheType::MavenRepository => "\u{2615}"@,
        CacheType::PubCache => "\u{1F3AF}"@,
        CacheType::Pip => "\u{1F40D}"@,
        CacheType::CocoaPods => "\u{1F36B}"@,
        CacheType::RubyGems => "\u{1F48E}"@,
        CacheType::XcodeDerivedData => "\u{1F528}"@,
        CacheType::XcodeDeviceSupport => "\u{1F4F1}"@,
        CacheType::XcodeArchives => "\u{1F4E6}"@,
        CacheType::JetBrainsCache => "\u{1F9E0}"@,
        CacheType::VSCodeCache => "\u{1F4DD}"@,
        CacheType::VSCodeServer => "\u{1F5A5}"@,
        CacheType::Docker => "\u{1F40B}"@,
        CacheType::GoBuild => "\u{1F439}"@,
        CacheType::PreCommit => "\u{1F6A6}"@,
    }
}

pub open spec fn cache_type_label(t: CacheType) -> Seq<char> {
    match t {
        CacheType::HuggingFace => "Hugging Face"@,
        CacheType::Ollama => "Ollama models"@,
        CacheType::PyTorch => "PyTorch hub"@,
        CacheType::LmStudio => "LM Studio"@,
        CacheType::Npm => "npm cache"@,
        CacheType::Yarn => "Yarn cache"@,
        CacheType::Pnpm => "pnpm store"@,
        CacheType::CargoRegistry => "Cargo registry"@,
        CacheType::CargoGit => "Cargo git deps"@,
        CacheType::GradleCache => "Gradle cache"@,
        CacheType::GradleWrapper => "Gradle wrapper"@,
        CacheType::MavenRepository => "Maven repository"@,
        CacheType::PubCache => "Pub cache"@,
        CacheType::Pip => "pip cache"@,
        CacheType::CocoaPods => "CocoaPods"@,
        CacheType::RubyGems => "RubyGems"@,
        CacheType::XcodeDerivedData => "Xcode DerivedData"@,
        CacheType::XcodeDeviceSupport => "Xcode Device Support"@,
        CacheType::XcodeArchives => "Xcode Archives"@,
        CacheType::JetBrainsCache => "JetBrains cache"@,
        CacheType::VSCodeCache => "VSCode cache"@,
        CacheType::VSCodeServer => "VSCode Server"@,
        CacheType::Docker => "Docker"@,
        CacheType::GoBuild => "Go build cache"@,
        CacheType::PreCommit => "pre-commit cache"@,
    }
}

pub open spec fn cache_type_description(t: CacheType) -> Seq<char> {
    match t {
        CacheType::HuggingFace => "Downloaded transformer models and datasets"@,
        CacheType::Ollama => "Downloaded LLM model files"@,
        CacheType::PyTorch => "PyTorch hub model cache"@,
        CacheType::LmStudio => "LM Studio model files"@,
        CacheType::Npm => "npm package cache (re-downloads on install)"@,
        CacheType::Yarn => "Yarn package cache"@,
        CacheType::Pnpm => "pnpm content-addressable store"@,
        CacheType::CargoRegistry => "Crate registry cache (re-downloads on build)"@,
        CacheType::CargoGit => "Git dependency cache for Cargo"@,
        CacheType::GradleCache => "Gradle build and dependency cache"@,
        CacheType::GradleWrapper => "Gradle wrapper distributions"@,
        CacheType::MavenRepository => "Maven dependency cache"@,
        CacheType::PubCache => "Dart/Flutter package cache"@,
        CacheType::Pip => "pip package download cache"@,
        CacheType::CocoaPods => "CocoaPods spec and pod cache"@,
        CacheType::RubyGems => "Ruby gem installations"@,
        CacheType::XcodeDerivedData => "Xcode build intermediates and indexes"@,
        CacheType::XcodeDeviceSupport => "iOS/watchOS/tvOS device symbol files"@,
        CacheType::XcodeArchives => "Archived app builds"@,
        CacheType::JetBrainsCache => "IDE cache and indexes"@,
        CacheType::VSCodeCache => "VSCode extension and runtime cache"@,
        CacheType::VSCodeServer => "Remote SSH/WSL server files"@,
        CacheType::Docker => "Docker images, containers, volumes"@,
        CacheType::GoBuild => "Go compilation cache"@,
        CacheType::PreCommit => "pre-commit hook environments"@,
    }
}

/// The variant's name, as `{:?}` prints it.
pub open spec fn cache_type_name(t: CacheType) -> Seq<char> {
    match t {
        CacheType::HuggingFace => "HuggingFace"@,
        CacheType::Ollama => "Ollama"@,
        CacheType::PyTorch => "PyTorch"@,
        CacheType::LmStudio => "LmStudio"@,
        CacheType::Npm => "Npm"@,
        CacheType::Yarn => "Yarn"@,
        CacheType::Pnpm => "Pnpm"@,
        CacheType::CargoRegistry => "CargoRegistry"@,
        CacheType::CargoGit => "CargoGit"@,
        CacheType::GradleCache => "GradleCache"@,
        CacheType::GradleWrapper => "GradleWrapper"@,
        CacheType::MavenRepository => "MavenRepository"@,
        CacheType::PubCache => "PubCache"@,
        CacheType::Pip => "Pip"@,
        CacheType::CocoaPods => "CocoaPods"@,
        CacheType::RubyGems => "RubyGems"@,
        CacheType::XcodeDerivedData => "XcodeDerivedData"@,
        CacheType::XcodeDeviceSupport => "XcodeDeviceSupport"@,
        CacheType::XcodeArchives => "XcodeArchives"@,
        CacheType::JetBrainsCache => "JetBrainsCache"@,
        CacheType::VSCodeCache => "VSCodeCache"@,
        CacheType::VSCodeServer => "VSCodeServer"@,
        CacheType::Docker => "Docker"@,
        CacheType::GoBuild => "GoBuild"@,
        CacheType::PreCommit => "PreCommit"@,
    }
}

/// Category of each cache type.
pub open spec fn cache_type_category(t: CacheType) -> CacheCategory {
    match t {
        CacheType::HuggingFace => CacheCategory::AiMl,
        CacheType::Ollama => CacheCategory::AiMl,
        CacheType::PyTorch => CacheCategory::AiMl,
        CacheType::LmStudio => CacheCategory::AiMl,
        CacheType::Npm => CacheCategory::PackageManager,
        CacheType::Yarn => CacheCategory::PackageManager,
        CacheType::Pnpm => CacheCategory::PackageManager,
        CacheType::CargoRegistry => CacheCategory::PackageManager,
        CacheType::CargoGit => CacheCategory::PackageManager,
        CacheType::GradleCache => CacheCategory::PackageManager,
        CacheType::GradleWrapper => CacheCategory::PackageManager,
        CacheType::MavenRepository => CacheCategory::PackageManager,
        CacheType::PubCache => CacheCategory::PackageManager,
        CacheType::Pip => CacheCategory::PackageManager,
        CacheType::CocoaPods => CacheCategory::PackageManager,
        CacheType::RubyGems => CacheCategory::PackageManager,
        CacheType::XcodeDerivedData => CacheCategory::Development,
        CacheType::XcodeDeviceSupport => CacheCategory::Development,
        CacheType::XcodeArchives => CacheCategory::Development,
        CacheType::JetBrainsCache => CacheCategory::Ide,
        CacheType::VSCodeCache => CacheCategory::Ide,
        CacheType::VSCodeServer => CacheCategory::Ide,
        CacheType::Docker => CacheCategory::Container,
        CacheType::GoBuild => CacheCategory::PackageManager,
        CacheType::PreCommit => CacheCategory::PackageManager,
    }
}

/// Locations of each cache type relative to the home directory, each with
/// whether it exists on macOS only.
pub open spec fn cache_paths_of(t: CacheType) -> Seq<(Seq<char>, bool)> {
    match t {
        CacheType::HuggingFace => seq![(".cache/huggingface"@, false)],
        CacheType::Ollama => seq![(".ollama/models"@, false)],
        CacheType::PyTorch => seq![(".cache/torch"@, false)],
        CacheType::LmStudio => seq![(".cache/lm-studio"@, false)],
        CacheType::Npm => seq![(".npm"@, false)],
        CacheType::Yarn => seq![(".cache/yarn"@, false), (".yarn/berry/cache"@, false)],
        CacheType::Pnpm => seq![(".local/share/pnpm/store"@, false)],
        CacheType::CargoRegistry => seq![(".cargo/registry"@, false)],
        CacheType::CargoGit => seq![(".cargo/git"@, false)],
        CacheType::GradleCache => seq![(".gradle/caches"@, false)],
        CacheType::GradleWrapper => seq![(".gradle/wrapper"@, false)],
        CacheType::MavenRepository => seq![(".m2/repository"@, false)],
        CacheType::PubCache => seq![(".pub-cache"@, false)],
        CacheType::Pip => seq![(".cache/pip"@, false)],
        CacheType::CocoaPods => seq![("Library/Caches/CocoaPods"@, true)],
        CacheType::RubyGems => seq![(".gem"@, false)],
        CacheType::XcodeDerivedData => seq![("Library/Developer/Xcode/DerivedData"@, true)],
        CacheType::XcodeDeviceSupport => seq![("Library/Developer/Xcode/iOS DeviceSupport"@, true), ("Library/Developer/Xcode/watchOS DeviceSupport"@, true), ("Library/Developer/Xcode/tvOS DeviceSupport"@, true)],
        CacheType::XcodeArchives => seq![("Library/Developer/Xcode/Archives"@, true)],
        CacheType::JetBrainsCache => seq![("Library/Caches/JetBrains"@, true), (".cache/JetBrains"@, false)],
        CacheType::VSCodeCache => seq![("Library/Caches/com.microsoft.VSCode"@, true), (".cache/vscode-cpptools"@, false)],
        CacheType::VSCodeServer => seq![(".vscode-server"@, false)],
        CacheType::Docker => seq![(".docker"@, false)],
        CacheType::GoBuild => seq![(".cache/go-build"@, false)],
        CacheType::PreCommit => seq![(".cache/pre-commit"@, false)],
    }
}

/// The official cleanup command and its description, for caches that have one.
pub open spec fn cache_cleanup_command(t: CacheType) -> Option<(Seq<char>, Seq<char>)> {
    match t {
        CacheType::Npm => Some(("npm cache clean --force"@, "Official npm cache cleanup"@)),
        CacheType::Yarn => Some(("yarn cache clean"@, "Official Yarn cache cleanup"@)),
        CacheType::Pnpm => Some(("pnpm store prune"@, "Remove unreferenced packages"@)),
        CacheType::CargoRegistry => Some(("cargo cache -a"@, "Official Cargo cache cleanup (requires cargo-cache)"@)),
        CacheType::GradleCache => Some(("./gradlew cleanBuildCache"@, "Official Gradle build cache cleanup"@)),
        CacheType::Pip => Some(("pip cache purge"@, "Official pip cache cleanup"@)),
        CacheType::CocoaPods => Some(("pod cache clean --all"@, "Official CocoaPods cache cleanup"@)),
        CacheType::RubyGems => Some(("gem cleanup"@, "Remove old gem versions"@)),
        CacheType::Docker => Some(("docker system prune -a"@, "Remove all unused images, containers, and volumes"@)),
        CacheType::GoBuild => Some(("go clean -cache"@, "Official Go cache cleanup"@)),
        _ => None,
    }
}

/// The warning for caches whose application must be closed before cleaning.
pub open spec fn cache_requires_app_closed(t: CacheType) -> Option<Seq<char>> {
    match t {
        CacheType::JetBrainsCache => Some("Close all JetBrains IDEs first"@),
        CacheType::VSCodeCache => Some("Close VSCode first"@),
        CacheType::XcodeDerivedData => Some("Close Xcode first"@),
        CacheType::XcodeDeviceSupport => Some("Close Xcode first"@),
        CacheType::XcodeArchives => Some("Close Xcode first"@),
        CacheType::Docker => Some("Ensure no containers are running"@),
        _ => None,
    }
}

/// Every cache type, in scanning order.
pub open spec fn all_cache_types() -> Seq<CacheType> {
    seq![
        CacheType::HuggingFace,
        CacheType::Ollama,
        CacheType::PyTorch,
        CacheType::LmStudio,
        CacheType::Npm,
        CacheType::Yarn,
        CacheType::Pnpm,
        CacheType::CargoRegistry,
        CacheType::CargoGit,
        CacheType::GradleCache,
        CacheType::GradleWrapper,
        CacheType::MavenRepository,
        CacheType::PubCache,
        CacheType::Pip,
        CacheType::CocoaPods,
        CacheType::RubyGems,
        CacheType::XcodeDerivedData,
        CacheType::XcodeDeviceSupport,
        CacheType::XcodeArchives,
        CacheType::JetBrainsCache,
        CacheType::VSCodeCache,
        CacheType::VSCodeServer,
        CacheType::Docker,
        CacheType::GoBuild,
        CacheType::PreCommit,
    ]
}

/// The views of a list of (path, macOS-only) pairs.
pub open spec fn path_views(s: Seq<(&str, bool)>) -> Seq<(Seq<char>, bool)> {
    s.map_values(|x: (&str, bool)| (x.0@, x.1))
}

impl CacheType {
    /// Get all cache types
    pub fn all() -> (r: &'static [CacheType])
        ensures
            r@ == all_cache_types(),
    {
        &[
            CacheType::HuggingFace,
            CacheType::Ollama,
            CacheType::PyTorch,
            CacheType::LmStudio,
            CacheType::Npm,
            CacheType::Yarn,
            CacheType::Pnpm,
            CacheType::CargoRegistry,
            CacheType::CargoGit,
            CacheType::GradleCache,
            CacheType::GradleWrapper,
            CacheType::MavenRepository,
            CacheType::PubCache,
            CacheType::Pip,
            CacheType::CocoaPods,
            CacheType::RubyGems,
            CacheType::XcodeDerivedData,
            CacheType::XcodeDeviceSupport,
            CacheType::XcodeArchives,
            CacheType::JetBrainsCache,
            CacheType::VSCodeCache,
            CacheType::VSCodeServer,
            CacheType::Docker,
            CacheType::GoBuild,
            CacheType::PreCommit,
        ]
    }

    /// Get the path(s) to this cache relative to home directory
    /// Returns (path, is_macos_only)
    pub fn paths(&self) -> (r: Vec<(&'static str, bool)>)
        ensures
            path_views(r@) == cache_paths_of(*self),
    {
        let r = match self {
            CacheType::HuggingFace => vec![(".cache/huggingface", false)],
            CacheType::Ollama => vec![(".ollama/models", false)],
            CacheType::PyTorch => vec![(".cache/torch", false)],
            CacheType::LmStudio => vec![(".cache/lm-studio", false)],
            CacheType::Npm => vec![(".npm", false)],
            CacheType::Yarn => vec![(".cache/yarn", false), (".yarn/berry/cache", false)],
            CacheType::Pnpm => vec![(".local/share/pnpm/store", false)],
            CacheType::CargoRegistry => vec![(".cargo/registry", false)],
            CacheType::CargoGit => vec![(".cargo/git", false)],
            CacheType::GradleCache => vec![(".gradle/caches", false)],
            CacheType::GradleWrapper => vec![(".gradle/wrapper", false)],
            CacheType::MavenRepository => vec![(".m2/repository", false)],
            CacheType::PubCache => vec![(".pub-cache", false)],
            CacheType::Pip => vec![(".cache/pip", false)],
            CacheType::CocoaPods => vec![("Library/Caches/CocoaPods", true)],
            CacheType::RubyGems => vec![(".gem", false)],
            CacheType::XcodeDerivedData => vec![("Library/Developer/Xcode/DerivedData", true)],
            CacheType::XcodeDeviceSupport => vec![("Library/Developer/Xcode/iOS DeviceSupport", true), ("Library/Developer/Xcode/watchOS DeviceSupport", true), ("Library/Developer/Xcode/tvOS DeviceSupport", true)],
            CacheType::XcodeArchives => vec![("Library/Developer/Xcode/Archives", true)],
            CacheType::JetBrainsCache => vec![("Library/Caches/JetBrains", true), (".cache/JetBrains", false)],
            CacheType::VSCodeCache => vec![("Library/Caches/com.microsoft.VSCode", true), (".cache/vscode-cpptools", false)],
            CacheType::VSCodeServer => vec![(".vscode-server", false)],
            CacheType::Docker => vec![(".docker", false)],
            CacheType::GoBuild => vec![(".cache/go-build", false)],
            CacheType::PreCommit => vec![(".cache/pre-commit", false)],
        };
        assert(path_views(r@) =~= cache_paths_of(*self));
        r
    }

    /// Get the icon for this cache type
    pub fn icon(&self) -> (r: &'static str)
        ensures
            r@ == cache_type_icon(*self),
    {
        match self {
            CacheType::HuggingFace => "\u{1F917}",
            CacheType::Ollama => "\u{1F999}",
            CacheType::PyTorch => "\u{1F525}",
            CacheType::LmStudio => "\u{1F4AC}",
            CacheType::Npm => "\u{1F4E6}",
            CacheType::Yarn => "\u{1F9F6}",
            CacheType::Pnpm => "\u{1F4E6}",
            CacheType::CargoRegistry => "\u{1F980}",
            CacheType::CargoGit => "\u{1F980}",
            CacheType::GradleCache => "\u{1F418}",
            CacheType::GradleWrapper => "\u{1F418}",
            CacheType::MavenRepository => "\u{2615}",
            CacheType::PubCache => "\u{1F3AF}",
            CacheType::Pip => "\u{1F40D}",
            CacheType::CocoaPods => "\u{1F36B}",
            CacheType::RubyGems => "\u{1F48E}",
            CacheType::XcodeDerivedData => "\u{1F528}",
            CacheType::XcodeDeviceSupport => "\u{1F4F1}",
            CacheType::XcodeArchives => "\u{1F4E6}",
            CacheType::JetBrainsCache => "\u{1F9E0}",
            CacheType::VSCodeCache => "\u{1F4DD}",
            CacheType::VSCodeServer => "\u{1F5A5}",
            CacheType::Docker => "\u{1F40B}",
            CacheType::GoBuild => "\u{1F439}",
            CacheType::PreCommit => "\u{1F6A6}",
        }
    }

    /// Get the display label for this cache type
    pub fn label(&self) -> (r: &'static str)
        ensures
            r@ == cache_type_label(*self),
    {
        match self {
            CacheType::HuggingFace => "Hugging Face",
            CacheType::Ollama => "Ollama models",
            CacheType::PyTorch => "PyTorch hub",
            CacheType::LmStudio => "LM Studio",
            CacheType::Npm => "npm cache",
            CacheType::Yarn => "Yarn cache",
            CacheType::Pnpm => "pnpm store",
            CacheType::CargoRegistry => "Cargo registry",
            CacheType::CargoGit => "Cargo git deps",
            CacheType::GradleCache => "Gradle cache",
            CacheType::GradleWrapper => "Gradle wrapper",
            CacheType::MavenRepository => "Maven repository",
            CacheType::PubCache => "Pub cache",
            CacheType::Pip => "pip cache",
            CacheType::CocoaPods => "CocoaPods",
            CacheType::RubyGems => "RubyGems",
            CacheType::XcodeDerivedData => "Xcode DerivedData",
            CacheType::XcodeDeviceSupport => "Xcode Device Support",
            CacheType::XcodeArchives => "Xcode Archives",
            CacheType::JetBrainsCache => "JetBrains cache",
            CacheType::VSCodeCache => "VSCode cache",
            CacheType::VSCodeServer => "VSCode Server",
            CacheType::Docker => "Docker",
            CacheType::GoBuild => "Go build cache",
            CacheType::PreCommit => "pre-commit cache",
        }
    }

    /// Get a description of what this cache contains
    pub fn description(&self) -> (r: &'static str)
        ensures
            r@ == cache_type_description(*self),
    {
        match self {
            CacheType::HuggingFace => "Downloaded transformer models and datasets",
            CacheType::Ollama => "Downloaded LLM model files",
            CacheType::PyTorch => "PyTorch hub model cache",
            CacheType::LmStudio => "LM Studio model files",
            CacheType::Npm => "npm package cache (re-downloads on install)",
            CacheType::Yarn => "Yarn package cache",
            CacheType::Pnpm => "pnpm content-addressable store",
            CacheType::CargoRegistry => "Crate registry cache (re-downloads on build)",
            CacheType::CargoGit => "Git dependency cache for Cargo",
            CacheType::GradleCache => "Gradle build and dependency cache",
            CacheType::GradleWrapper => "Gradle wrapper distributions",
            CacheType::MavenRepository => "Maven dependency cache",
            CacheType::PubCache => "Dart/Flutter package cache",
            CacheType::Pip => "pip package download cache",
            CacheType::CocoaPods => "CocoaPods spec and pod cache",
            CacheType::RubyGems => "Ruby gem installations",
            CacheType::XcodeDerivedData => "Xcode build intermediates and indexes",
            CacheType::XcodeDeviceSupport => "iOS/watchOS/tvOS device symbol files",
            CacheType::XcodeArchives => "Archived app builds",
            CacheType::JetBrainsCache => "IDE cache and indexes",
            CacheType::VSCodeCache => "VSCode extension and runtime cache",
            CacheType::VSCodeServer => "Remote SSH/WSL server files",
            CacheType::Docker => "Docker images, containers, volumes",
            CacheType::GoBuild => "Go compilation cache",
            CacheType::PreCommit => "pre-commit hook environments",
        }
    }

    /// The variant's name (what `{:?}` prints for it).
    pub fn variant_name(&self) -> (r: &'static str)
        ensures
            r@ == cache_type_name(*self),
    {
        match self {
            CacheType::HuggingFace => "HuggingFace",
            CacheType::Ollama => "Ollama",
            CacheType::PyTorch => "PyTorch",
            CacheType::LmStudio => "LmStudio",
            CacheType::Npm => "Npm",
            CacheType::Yarn => "Yarn",
            CacheType::Pnpm => "Pnpm",
            CacheType::CargoRegistry => "CargoRegistry",
            CacheType::CargoGit => "CargoGit",
            CacheType::GradleCache => "GradleCache",
            CacheType::GradleWrapper => "GradleWrapper",
            CacheType::MavenRepository => "MavenRepository",
            CacheType::PubCache => "PubCache",
            CacheType::Pip => "Pip",
            CacheType::CocoaPods => "CocoaPods",
            CacheType::RubyGems => "RubyGems",
            CacheType::XcodeDerivedData => "XcodeDerivedData",
            CacheType::XcodeDeviceSupport => "XcodeDeviceSupport",
            CacheType::XcodeArchives => "XcodeArchives",
            CacheType::JetBrainsCache => "JetBrainsCache",
            CacheType::VSCodeCache => "VSCodeCache",
            CacheType::VSCodeServer => "VSCodeServer",
            CacheType::Docker => "Docker",
            CacheType::GoBuild => "GoBuild",
            CacheType::PreCommit => "PreCommit",
        }
    }

    /// Get the category for this cache type
    pub fn category(&self) -> (r: CacheCategory)
        ensures
            r == cache_type_category(*self),
    {
        match self {
            CacheType::HuggingFace => CacheCategory::AiMl,
            CacheType::Ollama => CacheCategory::AiMl,
            CacheType::PyTorch => CacheCategory::AiMl,
            CacheType::LmStudio => CacheCategory::AiMl,
            CacheType::Npm => CacheCategory::PackageManager,
            CacheType::Yarn => CacheCategory::PackageManager,
            CacheType::Pnpm => CacheCategory::PackageManager,
            CacheType::CargoRegistry => CacheCategory::PackageManager,
            CacheType::CargoGit => CacheCategory::PackageManager,
            CacheType::GradleCache => CacheCategory::PackageManager,
            CacheType::GradleWrapper => CacheCategory::PackageManager,
            CacheType::MavenRepository => CacheCategory::PackageManager,
            CacheType::PubCache => CacheCategory::PackageManager,
            CacheType::Pip => CacheCategory::PackageManager,
            CacheType::CocoaPods => CacheCategory::PackageManager,
            CacheType::RubyGems => CacheCategory::PackageManager,
            CacheType::XcodeDerivedData => CacheCategory::Development,
            CacheType::XcodeDeviceSupport => CacheCategory::Development,
            CacheType::XcodeArchives => CacheCategory::Development,
            CacheType::JetBrainsCache => CacheCategory::Ide,
            CacheType::VSCodeCache => CacheCategory::Ide,
            CacheType::VSCodeServer => CacheCategory::Ide,
            CacheType::Docker => CacheCategory::Container,
            CacheType::GoBuild => CacheCategory::PackageManager,
            CacheType::PreCommit => CacheCategory::PackageManager,
        }
    }

    /// Get the official cleanup command if special handling is needed
    /// Returns (command, description)
    pub fn cleanup_command(&self) -> (r: Option<(&'static str, &'static str)>)
        ensures
            match r {
                Some(p) => cache_cleanup_command(*self) == Some((p.0@, p.1@)),
                None => cache_cleanup_command(*self).is_none(),
            },
    {
        match self {
            CacheType::Npm => Some(("npm cache clean --force", "Official npm cache cleanup")),
            CacheType::Yarn => Some(("yarn cache clean", "Official Yarn cache cleanup")),
            CacheType::Pnpm => Some(("pnpm store prune", "Remove unreferenced packages")),
            CacheType::CargoRegistry => Some(("cargo cache -a", "Official Cargo cache cleanup (requires cargo-cache)")),
            CacheType::GradleCache => Some(("./gradlew cleanBuildCache", "Official Gradle build cache cleanup")),
            CacheType::Pip => Some(("pip cache purge", "Official pip cache cleanup")),
            CacheType::CocoaPods => Some(("pod cache clean --all", "Official CocoaPods cache cleanup")),
            CacheType::RubyGems => Some(("gem cleanup", "Remove old gem versions")),
            CacheType::Docker => Some(("docker system prune -a", "Remove all unused images, containers, and volumes")),
            CacheType::GoBuild => Some(("go clean -cache", "Official Go cache cleanup")),
            _ => None,
        }
    }

    /// Check if this cache requires the app to be closed first
    pub fn requires_app_closed(&self) -> (r: Option<&'static str>)
        ensures
            match r {
                Some(s) => cache_requires_app_closed(*self) == Some(s@),
                None => cache_requires_app_closed(*self).is_none(),
            },
    {
        match self {
            CacheType::JetBrainsCache => Some("Close all JetBrains IDEs first"),
            CacheType::VSCodeCache => Some("Close VSCode first"),
            CacheType::XcodeDerivedData => Some("Close Xcode first"),
            CacheType::XcodeDeviceSupport => Some("Close Xcode first"),
            CacheType::XcodeArchives => Some("Close Xcode first"),
            CacheType::Docker => Some("Ensure no containers are running"),
            _ => None,
        }
    }

    /// Icon and label separated by a space (the cache type's display form).
    pub fn display_text(&self) -> (r: String)
        ensures
            r@ == cache_type_icon(*self) + " "@ + cache_type_label(*self),
    {
        concat3(self.icon(), " ", self.label())
    }
}

/// Represents a discovered user cache
#[derive(Debug, Clone)]
pub struct Cache {
    /// Type of cache
    pub cache_type: CacheType,
    /// Full path to the cache directory
    pub path: String,
    /// Size in bytes
    pub size: u64,
}

impl Cache {
    /// Create a new cache entry
    pub fn new(cache_type: CacheType, path: String, size: u64) -> (r: Self)
        ensures
            r.cache_type == cache_type,
            r.path@ == path@,
            r.size == size,
    {
        Cache { cache_type, path, size }
    }

    /// Get human-readable size
    pub fn size_display(&self) -> (r: String)
        ensures
            r@ == byte_size_text(self.size),
    {
        byte_size_display(self.size)
    }
}

/// Every cache type appears in `CacheType::all()`, and exactly once.
pub proof fn all_cache_types_lists_each_type_once(t: CacheType)
    ensures
        all_cache_types().contains(t),
        forall|i: int, j: int|
            0 <= i < j < all_cache_types().len() ==> all_cache_types()[i] != all_cache_types()[j],
{
    let s = all_cache_types();
    assert(s[0] == CacheType::HuggingFace);
    assert(s[1] == CacheType::Ollama);
    assert(s[2] == CacheType::PyTorch);
    assert(s[3] == CacheType::LmStudio);
    assert(s[4] == CacheType::Npm);
    assert(s[5] == CacheType::Yarn);
    assert(s[6] == CacheType::Pnpm);
    assert(s[7] == CacheType::CargoRegistry);
    assert(s[8] == CacheType::CargoGit);
    assert(s[9] == CacheType::GradleCache);
    assert(s[10] == CacheType::GradleWrapper);
    assert(s[11] == CacheType::MavenRepository);
    assert(s[12] == CacheType::PubCache);
    assert(s[13] == CacheType::Pip);
    assert(s[14] == CacheType::CocoaPods);
    assert(s[15] == CacheType::RubyGems);
    assert(s[16] == CacheType::XcodeDerivedData);
    assert(s[17] == CacheType::XcodeDeviceSupport);
    assert(s[18] == CacheType::XcodeArchives);
    assert(s[19] == CacheType::JetBrainsCache);
    assert(s[20] == CacheType::VSCodeCache);
    assert(s[21] == CacheType::VSCodeServer);
    assert(s[22] == CacheType::Docker);
    assert(s[23] == CacheType::GoBuild);
    assert(s[24] == CacheType::PreCommit);
}

/// Every cache type has at least one location, and every location is relative
/// to the home directory (it does not begin with `/`).
pub proof fn cache_paths_are_relative(t: CacheType)
    ensures
        cache_paths_of(t).len() >= 1,
        forall|i: int|
            0 <= i < cache_paths_of(t).len() ==> !has_prefix(#[trigger] cache_paths_of(t)[i].0, "/"@),
{
    reveal_strlit("/");
    reveal_strlit(".cache/JetBrains");
    reveal_strlit(".cache/go-build");
    reveal_strlit(".cache/huggingface");
    reveal_strlit(".cache/lm-studio");
    reveal_strlit(".cache/pip");
    reveal_strlit(".cache/pre-commit");
    reveal_strlit(".cache/torch");
    reveal_strlit(".cache/vscode-cpptools");
    reveal_strlit(".cargo/git");
    reveal_strlit(".cargo/registry");
    reveal_strlit("Library/Caches/CocoaPods");
    reveal_strlit(".docker");
    reveal_strlit(".gem");
    reveal_strlit(".gradle/caches");
    reveal_strlit(".gradle/wrapper");
    reveal_strlit(".m2/repository");
    reveal_strlit(".npm");
    reveal_strlit(".ollama/models");
    reveal_strlit(".local/share/pnpm/store");
    reveal_strlit(".pub-cache");
    reveal_strlit(".vscode-server");
    reveal_strlit(".cache/yarn");
    reveal_strlit(".yarn/berry/cache");
    reveal_strlit("Library/Caches/JetBrains");
    reveal_strlit("Library/Caches/com.microsoft.VSCode");
    reveal_strlit("Library/Developer/Xcode/Archives");
    reveal_strlit("Library/Developer/Xcode/DerivedData");
    reveal_strlit("Library/Developer/Xcode/iOS DeviceSupport");
    reveal_strlit("Library/Developer/Xcode/tvOS DeviceSupport");
    reveal_strlit("Library/Developer/Xcode/watchOS DeviceSupport");
    assert forall|i: int|
        0 <= i < cache_paths_of(t).len() implies !has_prefix(#[trigger] cache_paths_of(t)[i].0, "/"@) by {
        let p = cache_paths_of(t)[i].0;
        assert(p.len() >= 1);
        assert(p[0] != '/');
        if has_prefix(p, "/"@) {
            assert(p.subrange(0, 1)[0] == p[0]);
        }
    }
}

} // verus!
