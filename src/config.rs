//! The tool's settings, with usable defaults.

use vstd::prelude::*;
use crate::categories::{Category, CategoryTable, TableModel, make_category, string_views, well_formed_table};

verus! {

/// Export settings.
pub struct ExportConfig {
    /// The most file copies that run at once.
    pub max_concurrent_copies: usize,
}

/// Archive settings.
pub struct ZipConfig {
    pub enabled: bool,
    pub compression_level: u8,
    /// Buffer size in kilobytes.
    pub buffer_size_kb: usize,
}

/// Colour theme settings.
pub struct ColorConfig {
    /// Theme name: "default", "cyan", "magenta", "yellow", "green", "red",
    /// "blue" or "white".
    pub theme: String,
}

/// Terminal display settings.
pub struct UIConfig {
    pub max_recent_files: usize,
    pub color: ColorConfig,
}

/// Scan settings.
pub struct ScanConfig {
    /// Entry names (or `.*` for hidden entries) the scan skips.
    pub exclude_patterns: Vec<String>,
}

/// Mount settings.
pub struct MountConfig {
    /// The directory new mount points are made in.
    pub mount_base_dir: String,
    /// The prefix of the mount points this tool makes.
    pub mount_prefix: String,
    /// Path prefixes of the block devices offered for selection.
    pub device_patterns: Vec<String>,
}

/// All settings.
pub struct Config {
    pub categories: CategoryTable,
    pub export: ExportConfig,
    pub zip: ZipConfig,
    pub ui: UIConfig,
    pub scan: ScanConfig,
    pub mount: MountConfig,
}

/// The category table of the default settings.
pub open spec fn default_categories() -> TableModel {
    seq![
        ("images"@, seq![".jpg"@, ".jpeg"@, ".png"@, ".gif"@, ".bmp"@, ".tiff"@, ".tif"@, ".svg"@, ".webp"@, ".ico"@, ".heic"@, ".heif"@, ".raw"@, ".cr2"@, ".nef"@, ".arw"@, ".dng"@, ".orf"@, ".rw2"@, ".psd"@, ".ai"@, ".eps"@, ".indd"@, ".xcf"@, ".sketch"@, ".fig"@]),
        ("documents"@, seq![".doc"@, ".docx"@, ".docm"@, ".dot"@, ".dotx"@, ".dotm"@, ".pdf"@, ".rtf"@, ".txt"@, ".text"@, ".md"@, ".markdown"@, ".odt"@, ".ott"@, ".pages"@, ".wpd"@, ".wp"@, ".tex"@, ".wps"@, ".wri"@, ".abw"@]),
        ("presentations"@, seq![".ppt"@, ".pptx"@, ".pptm"@, ".pot"@, ".potx"@, ".potm"@, ".pps"@, ".ppsx"@, ".ppsm"@, ".ppa"@, ".ppam"@, ".odp"@, ".otp"@, ".key"@, ".gslides"@]),
        ("spreadsheets"@, seq![".xls"@, ".xlsx"@, ".xlsm"@, ".xlsb"@, ".xlt"@, ".xltx"@, ".xltm"@, ".xla"@, ".xlam"@, ".csv"@, ".tsv"@, ".ods"@, ".ots"@, ".numbers"@, ".gsheet"@]),
        ("databases"@, seq![".mdb"@, ".accdb"@, ".accde"@, ".accdt"@, ".accdr"@, ".db"@, ".sqlite"@, ".sqlite3"@, ".sql"@, ".dbf"@, ".fmp12"@, ".fp7"@]),
        ("email"@, seq![".msg"@, ".oft"@, ".ost"@, ".pst"@, ".eml"@, ".emlx"@, ".mbox"@, ".mbx"@, ".mailbox"@]),
        ("notes"@, seq![".one"@, ".onetoc2"@, ".onepkg"@, ".note"@, ".enex"@, ".enl"@, ".notion"@]),
        ("publishing"@, seq![".pub"@, ".indd"@, ".indt"@, ".qxd"@, ".qxp"@]),
        ("diagrams"@, seq![".vsd"@, ".vsdx"@, ".vsdm"@, ".vst"@, ".vstx"@, ".vstm"@, ".vss"@, ".vssx"@, ".vssm"@, ".drawio"@]),
        ("project_files"@, seq![".mpp"@, ".mpt"@, ".gan"@, ".planner"@]),
        ("videos"@, seq![".mp4"@, ".avi"@, ".mov"@, ".mkv"@, ".wmv"@, ".flv"@, ".webm"@, ".m4v"@, ".mpg"@, ".mpeg"@, ".m2v"@, ".3gp"@, ".3g2"@, ".mts"@, ".m2ts"@, ".ts"@, ".vob"@, ".ogv"@, ".mxf"@, ".roq"@, ".nsv"@, ".f4v"@, ".f4p"@, ".f4a"@, ".f4b"@]),
        ("audio"@, seq![".mp3"@, ".wav"@, ".flac"@, ".aac"@, ".ogg"@, ".m4a"@, ".wma"@, ".aiff"@, ".aif"@, ".aifc"@, ".caf"@, ".opus"@, ".ape"@, ".alac"@, ".amr"@, ".au"@, ".mka"@, ".mid"@, ".midi"@, ".ra"@, ".rm"@]),
        ("archives"@, seq![".zip"@, ".rar"@, ".7z"@, ".tar"@, ".gz"@, ".bz2"@, ".xz"@, ".tgz"@, ".tbz2"@, ".cab"@, ".msi"@, ".msix"@, ".dmg"@, ".pkg"@, ".z"@, ".lz"@, ".lzma"@, ".tlz"@, ".war"@, ".jar"@, ".iso"@, ".img"@, ".sit"@, ".sitx"@, ".sea"@, ".zipx"@]),
        ("executables"@, seq![".exe"@, ".msi"@, ".msix"@, ".appx"@, ".bat"@, ".cmd"@, ".com"@, ".scr"@, ".dll"@, ".app"@, ".dmg"@, ".pkg"@, ".command"@, ".workflow"@, ".deb"@, ".rpm"@, ".run"@, ".sh"@, ".appimage"@, ".jar"@]),
        ("code"@, seq![".html"@, ".htm"@, ".css"@, ".scss"@, ".sass"@, ".less"@, ".js"@, ".jsx"@, ".ts"@, ".tsx"@, ".vue"@, ".php"@, ".asp"@, ".aspx"@, ".jsp"@, ".py"@, ".pyw"@, ".pyc"@, ".pyo"@, ".pyd"@, ".java"@, ".class"@, ".jar"@, ".c"@, ".cpp"@, ".cc"@, ".cxx"@, ".h"@, ".hpp"@, ".hxx"@, ".cs"@, ".csx"@, ".m"@, ".mm"@, ".swift"@, ".rs"@, ".go"@, ".rb"@, ".erb"@, ".pl"@, ".pm"@, ".r"@, ".mat"@, ".sh"@, ".bash"@, ".zsh"@, ".fish"@, ".ps1"@, ".psm1"@, ".psd1"@, ".bat"@, ".cmd"@, ".lua"@, ".scala"@, ".kt"@, ".kts"@, ".dart"@, ".vim"@, ".el"@]),
        ("config"@, seq![".ini"@, ".conf"@, ".cfg"@, ".config"@, ".properties"@, ".toml"@, ".yaml"@, ".yml"@, ".json"@, ".json5"@, ".jsonc"@, ".xml"@, ".plist"@, ".reg"@, ".env"@, ".editorconfig"@, ".gitignore"@, ".gitattributes"@, ".dockerignore"@]),
        ("fonts"@, seq![".ttf"@, ".otf"@, ".woff"@, ".woff2"@, ".eot"@, ".fon"@, ".fnt"@, ".dfont"@, ".suit"@]),
        ("three_d"@, seq![".obj"@, ".fbx"@, ".dae"@, ".3ds"@, ".blend"@, ".stl"@, ".ply"@, ".gltf"@, ".glb"@, ".usd"@, ".usdz"@, ".dwg"@, ".dxf"@, ".dwf"@, ".step"@, ".stp"@, ".iges"@, ".igs"@, ".ipt"@, ".iam"@, ".sldprt"@, ".sldasm"@, ".catpart"@, ".catproduct"@]),
        ("ebooks"@, seq![".epub"@, ".mobi"@, ".azw"@, ".azw3"@, ".kf8"@, ".ibooks"@, ".fb2"@, ".djvu"@, ".cbr"@, ".cbz"@, ".cb7"@, ".cbt"@]),
        ("backups"@, seq![".bak"@, ".backup"@, ".old"@, ".orig"@, ".tmp"@, ".temp"@, ".swp"@, ".swo"@, ".gho"@, ".bkf"@, ".bck"@]),
        ("system"@, seq![".sys"@, ".dll"@, ".ocx"@, ".drv"@, ".cpl"@, ".scr"@, ".ini"@, ".dat"@, ".ds_store"@, ".localized"@, ".plist"@, ".so"@, ".ko"@, ".lnk"@, ".url"@, ".webloc"@]),
        ("virtual"@, seq![".vmdk"@, ".vdi"@, ".vhd"@, ".vhdx"@, ".hdd"@, ".ova"@, ".ovf"@, ".qcow"@, ".qcow2"@, ".iso"@, ".img"@, ".toast"@, ".cdr"@]),
        ("logs"@, seq![".log"@, ".out"@, ".trace"@, ".dmp"@, ".crash"@, ".diag"@]),
        ("certificates"@, seq![".cer"@, ".crt"@, ".der"@, ".p7b"@, ".p7c"@, ".p12"@, ".pfx"@, ".pem"@, ".key"@, ".pub"@, ".sig"@, ".gpg"@]),
        ("web"@, seq![".html"@, ".htm"@, ".mhtml"@, ".mht"@, ".url"@, ".webloc"@, ".website"@, ".download"@, ".crdownload"@, ".part"@]),
        ("subtitles"@, seq![".srt"@, ".sub"@, ".sbv"@, ".ass"@, ".ssa"@, ".vtt"@, ".idx"@]),
        ("torrents"@, seq![".torrent"@, ".magnet"@]),
    ]
}

/// The category table of the default settings.
pub fn default_category_table() -> (r: CategoryTable)
    ensures
        r.model() == default_categories(),
{
    let mut entries: Vec<Category> = Vec::new();
    entries.push(make_category("images", &[".jpg", ".jpeg", ".png", ".gif", ".bmp", ".tiff", ".tif", ".svg", ".webp", ".ico", ".heic", ".heif", ".raw", ".cr2", ".nef", ".arw", ".dng", ".orf", ".rw2", ".psd", ".ai", ".eps", ".indd", ".xcf", ".sketch", ".fig"]));
    entries.push(make_category("documents", &[".doc", ".docx", ".docm", ".dot", ".dotx", ".dotm", ".pdf", ".rtf", ".txt", ".text", ".md", ".markdown", ".odt", ".ott", ".pages", ".wpd", ".wp", ".tex", ".wps", ".wri", ".abw"]));
    entries.push(make_category("presentations", &[".ppt", ".pptx", ".pptm", ".pot", ".potx", ".potm", ".pps", ".ppsx", ".ppsm", ".ppa", ".ppam", ".odp", ".otp", ".key", ".gslides"]));
    entries.push(make_category("spreadsheets", &[".xls", ".xlsx", ".xlsm", ".xlsb", ".xlt", ".xltx", ".xltm", ".xla", ".xlam", ".csv", ".tsv", ".ods", ".ots", ".numbers", ".gsheet"]));
    entries.push(make_category("databases", &[".mdb", ".accdb", ".accde", ".accdt", ".accdr", ".db", ".sqlite", ".sqlite3", ".sql", ".dbf", ".fmp12", ".fp7"]));
    entries.push(make_category("email", &[".msg", ".oft", ".ost", ".pst", ".eml", ".emlx", ".mbox", ".mbx", ".mailbox"]));
    entries.push(make_category("notes", &[".one", ".onetoc2", ".onepkg", ".note", ".enex", ".enl", ".notion"]));
    entries.push(make_category("publishing", &[".pub", ".indd", ".indt", ".qxd", ".qxp"]));
    entries.push(make_category("diagrams", &[".vsd", ".vsdx", ".vsdm", ".vst", ".vstx", ".vstm", ".vss", ".vssx", ".vssm", ".drawio"]));
    entries.push(make_category("project_files", &[".mpp", ".mpt", ".gan", ".planner"]));
    entries.push(make_category("videos", &[".mp4", ".avi", ".mov", ".mkv", ".wmv", ".flv", ".webm", ".m4v", ".mpg", ".mpeg", ".m2v", ".3gp", ".3g2", ".mts", ".m2ts", ".ts", ".vob", ".ogv", ".mxf", ".roq", ".nsv", ".f4v", ".f4p", ".f4a", ".f4b"]));
    entries.push(make_category("audio", &[".mp3", ".wav", ".flac", ".aac", ".ogg", ".m4a", ".wma", ".aiff", ".aif", ".aifc", ".caf", ".opus", ".ape", ".alac", ".amr", ".au", ".mka", ".mid", ".midi", ".ra", ".rm"]));
    entries.push(make_category("archives", &[".zip", ".rar", ".7z", ".tar", ".gz", ".bz2", ".xz", ".tgz", ".tbz2", ".cab", ".msi", ".msix", ".dmg", ".pkg", ".z", ".lz", ".lzma", ".tlz", ".war", ".jar", ".iso", ".img", ".sit", ".sitx", ".sea", ".zipx"]));
    entries.push(make_category("executables", &[".exe", ".msi", ".msix", ".appx", ".bat", ".cmd", ".com", ".scr", ".dll", ".app", ".dmg", ".pkg", ".command", ".workflow", ".deb", ".rpm", ".run", ".sh", ".appimage", ".jar"]));
    entries.push(make_category("code", &[".html", ".htm", ".css", ".scss", ".sass", ".less", ".js", ".jsx", ".ts", ".tsx", ".vue", ".php", ".asp", ".aspx", ".jsp", ".py", ".pyw", ".pyc", ".pyo", ".pyd", ".java", ".class", ".jar", ".c", ".cpp", ".cc", ".cxx", ".h", ".hpp", ".hxx", ".cs", ".csx", ".m", ".mm", ".swift", ".rs", ".go", ".rb", ".erb", ".pl", ".pm", ".r", ".mat", ".sh", ".bash", ".zsh", ".fish", ".ps1", ".psm1", ".psd1", ".bat", ".cmd", ".lua", ".scala", ".kt", ".kts", ".dart", ".vim", ".el"]));
    entries.push(make_category("config", &[".ini", ".conf", ".cfg", ".config", ".properties", ".toml", ".yaml", ".yml", ".json", ".json5", ".jsonc", ".xml", ".plist", ".reg", ".env", ".editorconfig", ".gitignore", ".gitattributes", ".dockerignore"]));
    entries.push(make_category("fonts", &[".ttf", ".otf", ".woff", ".woff2", ".eot", ".fon", ".fnt", ".dfont", ".suit"]));
    entries.push(make_category("three_d", &[".obj", ".fbx", ".dae", ".3ds", ".blend", ".stl", ".ply", ".gltf", ".glb", ".usd", ".usdz", ".dwg", ".dxf", ".dwf", ".step", ".stp", ".iges", ".igs", ".ipt", ".iam", ".sldprt", ".sldasm", ".catpart", ".catproduct"]));
    entries.push(make_category("ebooks", &[".epub", ".mobi", ".azw", ".azw3", ".kf8", ".ibooks", ".fb2", ".djvu", ".cbr", ".cbz", ".cb7", ".cbt"]));
    entries.push(make_category("backups", &[".bak", ".backup", ".old", ".orig", ".tmp", ".temp", ".swp", ".swo", ".gho", ".bkf", ".bck"]));
    entries.push(make_category("system", &[".sys", ".dll", ".ocx", ".drv", ".cpl", ".scr", ".ini", ".dat", ".ds_store", ".localized", ".plist", ".so", ".ko", ".lnk", ".url", ".webloc"]));
    entries.push(make_category("virtual", &[".vmdk", ".vdi", ".vhd", ".vhdx", ".hdd", ".ova", ".ovf", ".qcow", ".qcow2", ".iso", ".img", ".toast", ".cdr"]));
    entries.push(make_category("logs", &[".log", ".out", ".trace", ".dmp", ".crash", ".diag"]));
    entries.push(make_category("certificates", &[".cer", ".crt", ".der", ".p7b", ".p7c", ".p12", ".pfx", ".pem", ".key", ".pub", ".sig", ".gpg"]));
    entries.push(make_category("web", &[".html", ".htm", ".mhtml", ".mht", ".url", ".webloc", ".website", ".download", ".crdownload", ".part"]));
    entries.push(make_category("subtitles", &[".srt", ".sub", ".sbv", ".ass", ".ssa", ".vtt", ".idx"]));
    entries.push(make_category("torrents", &[".torrent", ".magnet"]));
    let r = CategoryTable { entries };
    assert(r.model() =~~= default_categories());
    r
}

/// Every extension of the default table is well formed.
pub proof fn lemma_default_well_formed()
    ensures
        well_formed_table(default_categories()),
{
    reveal_strlit(".jpg");
    reveal_strlit(".jpeg");
    reveal_strlit(".png");
    reveal_strlit(".gif");
    reveal_strlit(".bmp");
    reveal_strlit(".tiff");
    reveal_strlit(".tif");
    reveal_strlit(".svg");
    reveal_strlit(".webp");
    reveal_strlit(".ico");
    reveal_strlit(".heic");
    reveal_strlit(".heif");
    reveal_strlit(".raw");
    reveal_strlit(".cr2");
    reveal_strlit(".nef");
    reveal_strlit(".arw");
    reveal_strlit(".dng");
    reveal_strlit(".orf");
    reveal_strlit(".rw2");
    reveal_strlit(".psd");
    reveal_strlit(".ai");
    reveal_strlit(".eps");
    reveal_strlit(".indd");
    reveal_strlit(".xcf");
    reveal_strlit(".sketch");
    reveal_strlit(".fig");
    reveal_strlit(".doc");
    reveal_strlit(".docx");
    reveal_strlit(".docm");
    reveal_strlit(".dot");
    reveal_strlit(".dotx");
    reveal_strlit(".dotm");
    reveal_strlit(".pdf");
    reveal_strlit(".rtf");
    reveal_strlit(".txt");
    reveal_strlit(".text");
    reveal_strlit(".md");
    reveal_strlit(".markdown");
    reveal_strlit(".odt");
    reveal_strlit(".ott");
    reveal_strlit(".pages");
    reveal_strlit(".wpd");
    reveal_strlit(".wp");
    reveal_strlit(".tex");
    reveal_strlit(".wps");
    reveal_strlit(".wri");
    reveal_strlit(".abw");
    reveal_strlit(".ppt");
    reveal_strlit(".pptx");
    reveal_strlit(".pptm");
    reveal_strlit(".pot");
    reveal_strlit(".potx");
    reveal_strlit(".potm");
    reveal_strlit(".pps");
    reveal_strlit(".ppsx");
    reveal_strlit(".ppsm");
    reveal_strlit(".ppa");
    reveal_strlit(".ppam");
    reveal_strlit(".odp");
    reveal_strlit(".otp");
    reveal_strlit(".key");
    reveal_strlit(".gslides");
    reveal_strlit(".xls");
    reveal_strlit(".xlsx");
    reveal_strlit(".xlsm");
    reveal_strlit(".xlsb");
    reveal_strlit(".xlt");
    reveal_strlit(".xltx");
    reveal_strlit(".xltm");
    reveal_strlit(".xla");
    reveal_strlit(".xlam");
    reveal_strlit(".csv");
    reveal_strlit(".tsv");
    reveal_strlit(".ods");
    reveal_strlit(".ots");
    reveal_strlit(".numbers");
    reveal_strlit(".gsheet");
    reveal_strlit(".mdb");
    reveal_strlit(".accdb");
    reveal_strlit(".accde");
    reveal_strlit(".accdt");
    reveal_strlit(".accdr");
    reveal_strlit(".db");
    reveal_strlit(".sqlite");
    reveal_strlit(".sqlite3");
    reveal_strlit(".sql");
    reveal_strlit(".dbf");
    reveal_strlit(".fmp12");
    reveal_strlit(".fp7");
    reveal_strlit(".msg");
    reveal_strlit(".oft");
    reveal_strlit(".ost");
    reveal_strlit(".pst");
    reveal_strlit(".eml");
    reveal_strlit(".emlx");
    reveal_strlit(".mbox");
    reveal_strlit(".mbx");
    reveal_strlit(".mailbox");
    reveal_strlit(".one");
    reveal_strlit(".onetoc2");
    reveal_strlit(".onepkg");
    reveal_strlit(".note");
    reveal_strlit(".enex");
    reveal_strlit(".enl");
    reveal_strlit(".notion");
    reveal_strlit(".pub");
    reveal_strlit(".indd");
    reveal_strlit(".indt");
    reveal_strlit(".qxd");
    reveal_strlit(".qxp");
    reveal_strlit(".vsd");
    reveal_strlit(".vsdx");
    reveal_strlit(".vsdm");
    reveal_strlit(".vst");
    reveal_strlit(".vstx");
    reveal_strlit(".vstm");
    reveal_strlit(".vss");
    reveal_strlit(".vssx");
    reveal_strlit(".vssm");
    reveal_strlit(".drawio");
    reveal_strlit(".mpp");
    reveal_strlit(".mpt");
    reveal_strlit(".gan");
    reveal_strlit(".planner");
    reveal_strlit(".mp4");
    reveal_strlit(".avi");
    reveal_strlit(".mov");
    reveal_strlit(".mkv");
    reveal_strlit(".wmv");
    reveal_strlit(".flv");
    reveal_strlit(".webm");
    reveal_strlit(".m4v");
    reveal_strlit(".mpg");
    reveal_strlit(".mpeg");
    reveal_strlit(".m2v");
    reveal_strlit(".3gp");
    reveal_strlit(".3g2");
    reveal_strlit(".mts");
    reveal_strlit(".m2ts");
    reveal_strlit(".ts");
    reveal_strlit(".vob");
    reveal_strlit(".ogv");
    reveal_strlit(".mxf");
    reveal_strlit(".roq");
    reveal_strlit(".nsv");
    reveal_strlit(".f4v");
    reveal_strlit(".f4p");
    reveal_strlit(".f4a");
    reveal_strlit(".f4b");
    reveal_strlit(".mp3");
    reveal_strlit(".wav");
    reveal_strlit(".flac");
    reveal_strlit(".aac");
    reveal_strlit(".ogg");
    reveal_strlit(".m4a");
    reveal_strlit(".wma");
    reveal_strlit(".aiff");
    reveal_strlit(".aif");
    reveal_strlit(".aifc");
    reveal_strlit(".caf");
    reveal_strlit(".opus");
    reveal_strlit(".ape");
    reveal_strlit(".alac");
    reveal_strlit(".amr");
    reveal_strlit(".au");
    reveal_strlit(".mka");
    reveal_strlit(".mid");
    reveal_strlit(".midi");
    reveal_strlit(".ra");
    reveal_strlit(".rm");
    reveal_strlit(".zip");
    reveal_strlit(".rar");
    reveal_strlit(".7z");
    reveal_strlit(".tar");
    reveal_strlit(".gz");
    reveal_strlit(".bz2");
    reveal_strlit(".xz");
    reveal_strlit(".tgz");
    reveal_strlit(".tbz2");
    reveal_strlit(".cab");
    reveal_strlit(".msi");
    reveal_strlit(".msix");
    reveal_strlit(".dmg");
    reveal_strlit(".pkg");
    reveal_strlit(".z");
    reveal_strlit(".lz");
    reveal_strlit(".lzma");
    reveal_strlit(".tlz");
    reveal_strlit(".war");
    reveal_strlit(".jar");
    reveal_strlit(".iso");
    reveal_strlit(".img");
    reveal_strlit(".sit");
    reveal_strlit(".sitx");
    reveal_strlit(".sea");
    reveal_strlit(".zipx");
    reveal_strlit(".exe");
    reveal_strlit(".msi");
    reveal_strlit(".msix");
    reveal_strlit(".appx");
    reveal_strlit(".bat");
    reveal_strlit(".cmd");
    reveal_strlit(".com");
    reveal_strlit(".scr");
    reveal_strlit(".dll");
    reveal_strlit(".app");
    reveal_strlit(".dmg");
    reveal_strlit(".pkg");
    reveal_strlit(".command");
    reveal_strlit(".workflow");
    reveal_strlit(".deb");
    reveal_strlit(".rpm");
    reveal_strlit(".run");
    reveal_strlit(".sh");
    reveal_strlit(".appimage");
    reveal_strlit(".jar");
    reveal_strlit(".html");
    reveal_strlit(".htm");
    reveal_strlit(".css");
    reveal_strlit(".scss");
    reveal_strlit(".sass");
    reveal_strlit(".less");
    reveal_strlit(".js");
    reveal_strlit(".jsx");
    reveal_strlit(".ts");
    reveal_strlit(".tsx");
    reveal_strlit(".vue");
    reveal_strlit(".php");
    reveal_strlit(".asp");
    reveal_strlit(".aspx");
    reveal_strlit(".jsp");
    reveal_strlit(".py");
    reveal_strlit(".pyw");
    reveal_strlit(".pyc");
    reveal_strlit(".pyo");
    reveal_strlit(".pyd");
    reveal_strlit(".java");
    reveal_strlit(".class");
    reveal_strlit(".jar");
    reveal_strlit(".c");
    reveal_strlit(".cpp");
    reveal_strlit(".cc");
    reveal_strlit(".cxx");
    reveal_strlit(".h");
    reveal_strlit(".hpp");
    reveal_strlit(".hxx");
    reveal_strlit(".cs");
    reveal_strlit(".csx");
    reveal_strlit(".m");
    reveal_strlit(".mm");
    reveal_strlit(".swift");
    reveal_strlit(".rs");
    reveal_strlit(".go");
    reveal_strlit(".rb");
    reveal_strlit(".erb");
    reveal_strlit(".pl");
    reveal_strlit(".pm");
    reveal_strlit(".r");
    reveal_strlit(".mat");
    reveal_strlit(".sh");
    reveal_strlit(".bash");
    reveal_strlit(".zsh");
    reveal_strlit(".fish");
    reveal_strlit(".ps1");
    reveal_strlit(".psm1");
    reveal_strlit(".psd1");
    reveal_strlit(".bat");
    reveal_strlit(".cmd");
    reveal_strlit(".lua");
    reveal_strlit(".scala");
    reveal_strlit(".kt");
    reveal_strlit(".kts");
    reveal_strlit(".dart");
    reveal_strlit(".vim");
    reveal_strlit(".el");
    reveal_strlit(".ini");
    reveal_strlit(".conf");
    reveal_strlit(".cfg");
    reveal_strlit(".config");
    reveal_strlit(".properties");
    reveal_strlit(".toml");
    reveal_strlit(".yaml");
    reveal_strlit(".yml");
    reveal_strlit(".json");
    reveal_strlit(".json5");
    reveal_strlit(".jsonc");
    reveal_strlit(".xml");
    reveal_strlit(".plist");
    reveal_strlit(".reg");
    reveal_strlit(".env");
    reveal_strlit(".editorconfig");
    reveal_strlit(".gitignore");
    reveal_strlit(".gitattributes");
    reveal_strlit(".dockerignore");
    reveal_strlit(".ttf");
    reveal_strlit(".otf");
    reveal_strlit(".woff");
    reveal_strlit(".woff2");
    reveal_strlit(".eot");
    reveal_strlit(".fon");
    reveal_strlit(".fnt");
    reveal_strlit(".dfont");
    reveal_strlit(".suit");
    reveal_strlit(".obj");
    reveal_strlit(".fbx");
    reveal_strlit(".dae");
    reveal_strlit(".3ds");
    reveal_strlit(".blend");
    reveal_strlit(".stl");
    reveal_strlit(".ply");
    reveal_strlit(".gltf");
    reveal_strlit(".glb");
    reveal_strlit(".usd");
    reveal_strlit(".usdz");
    reveal_strlit(".dwg");
    reveal_strlit(".dxf");
    reveal_strlit(".dwf");
    reveal_strlit(".step");
    reveal_strlit(".stp");
    reveal_strlit(".iges");
    reveal_strlit(".igs");
    reveal_strlit(".ipt");
    reveal_strlit(".iam");
    reveal_strlit(".sldprt");
    reveal_strlit(".sldasm");
    reveal_strlit(".catpart");
    reveal_strlit(".catproduct");
    reveal_strlit(".epub");
    reveal_strlit(".mobi");
    reveal_strlit(".azw");
    reveal_strlit(".azw3");
    reveal_strlit(".kf8");
    reveal_strlit(".ibooks");
    reveal_strlit(".fb2");
    reveal_strlit(".djvu");
    reveal_strlit(".cbr");
    reveal_strlit(".cbz");
    reveal_strlit(".cb7");
    reveal_strlit(".cbt");
    reveal_strlit(".bak");
    reveal_strlit(".backup");
    reveal_strlit(".old");
    reveal_strlit(".orig");
    reveal_strlit(".tmp");
    reveal_strlit(".temp");
    reveal_strlit(".swp");
    reveal_strlit(".swo");
    reveal_strlit(".gho");
    reveal_strlit(".bkf");
    reveal_strlit(".bck");
    reveal_strlit(".sys");
    reveal_strlit(".dll");
    reveal_strlit(".ocx");
    reveal_strlit(".drv");
    reveal_strlit(".cpl");
    reveal_strlit(".scr");
    reveal_strlit(".ini");
    reveal_strlit(".dat");
    reveal_strlit(".ds_store");
    reveal_strlit(".localized");
    reveal_strlit(".plist");
    reveal_strlit(".so");
    reveal_strlit(".ko");
    reveal_strlit(".lnk");
    reveal_strlit(".url");
    reveal_strlit(".webloc");
    reveal_strlit(".vmdk");
    reveal_strlit(".vdi");
    reveal_strlit(".vhd");
    reveal_strlit(".vhdx");
    reveal_strlit(".hdd");
    reveal_strlit(".ova");
    reveal_strlit(".ovf");
    reveal_strlit(".qcow");
    reveal_strlit(".qcow2");
    reveal_strlit(".iso");
    reveal_strlit(".img");
    reveal_strlit(".toast");
    reveal_strlit(".cdr");
    reveal_strlit(".log");
    reveal_strlit(".out");
    reveal_strlit(".trace");
    reveal_strlit(".dmp");
    reveal_strlit(".crash");
    reveal_strlit(".diag");
    reveal_strlit(".cer");
    reveal_strlit(".crt");
    reveal_strlit(".der");
    reveal_strlit(".p7b");
    reveal_strlit(".p7c");
    reveal_strlit(".p12");
    reveal_strlit(".pfx");
    reveal_strlit(".pem");
    reveal_strlit(".key");
    reveal_strlit(".pub");
    reveal_strlit(".sig");
    reveal_strlit(".gpg");
    reveal_strlit(".html");
    reveal_strlit(".htm");
    reveal_strlit(".mhtml");
    reveal_strlit(".mht");
    reveal_strlit(".url");
    reveal_strlit(".webloc");
    reveal_strlit(".website");
    reveal_strlit(".download");
    reveal_strlit(".crdownload");
    reveal_strlit(".part");
    reveal_strlit(".srt");
    reveal_strlit(".sub");
    reveal_strlit(".sbv");
    reveal_strlit(".ass");
    reveal_strlit(".ssa");
    reveal_strlit(".vtt");
    reveal_strlit(".idx");
    reveal_strlit(".torrent");
    reveal_strlit(".magnet");
}

impl Default for Config {
    fn default() -> (r: Self)
        ensures
            r.categories.model() == default_categories(),
            well_formed_table(r.categories.model()),
            r.export.max_concurrent_copies == 10,
            r.zip.enabled,
            r.zip.compression_level == 6,
            r.zip.buffer_size_kb == 256,
            r.ui.max_recent_files == 10,
            r.ui.color.theme@ == "default"@,
            string_views(r.scan.exclude_patterns@) == seq![".*"@, "System Volume Information"@, "$RECYCLE.BIN"@, "node_modules"@],
            r.mount.mount_base_dir@ == "/mnt"@,
            r.mount.mount_prefix@ == "tap_"@,
            string_views(r.mount.device_patterns@) == seq!["/dev/sd"@, "/dev/nvme"@, "/dev/mmcblk"@, "/dev/vd"@],
    {
        proof {
            lemma_default_well_formed();
        }
        let mut exclude_patterns: Vec<String> = Vec::new();
        exclude_patterns.push(String::from_str(".*"));
        exclude_patterns.push(String::from_str("System Volume Information"));
        exclude_patterns.push(String::from_str("$RECYCLE.BIN"));
        exclude_patterns.push(String::from_str("node_modules"));
        let mut device_patterns: Vec<String> = Vec::new();
        device_patterns.push(String::from_str("/dev/sd"));
        device_patterns.push(String::from_str("/dev/nvme"));
        device_patterns.push(String::from_str("/dev/mmcblk"));
        device_patterns.push(String::from_str("/dev/vd"));
        let r = Config {
            categories: default_category_table(),
            export: ExportConfig { max_concurrent_copies: 10 },
            zip: ZipConfig { enabled: true, compression_level: 6, buffer_size_kb: 256 },
            ui: UIConfig { max_recent_files: 10, color: ColorConfig { theme: String::from_str("default") } },
            scan: ScanConfig { exclude_patterns },
            mount: MountConfig {
                mount_base_dir: String::from_str("/mnt"),
                mount_prefix: String::from_str("tap_"),
                device_patterns,
            },
        };
        assert(string_views(r.scan.exclude_patterns@) =~= seq![".*"@, "System Volume Information"@, "$RECYCLE.BIN"@, "node_modules"@]);
        assert(string_views(r.mount.device_patterns@) =~= seq!["/dev/sd"@, "/dev/nvme"@, "/dev/mmcblk"@, "/dev/vd"@]);
        r
    }
}

} // verus!
