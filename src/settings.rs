use vstd::prelude::*;

verus! {

/// Names that identify an application to the platform's directory layout.
#[derive(Clone, Eq, PartialEq, Debug, Default)]
pub struct Label {
    pub qualifier: String,
    pub organization: String,
    pub application: String,
}

/// Where the configuration directory lies.
#[derive(Debug)]
pub enum ConfigDir {
    /// The platform's configuration directory of the labelled project.
    ProjectDir(Label),
    /// A directory given by the caller.
    Custom(String),
}

/// The file format of the configuration file.
#[derive(Clone, Copy, Debug, PartialEq, Eq, Structural)]
pub enum Format {
    Unset,
    Json,
    Pkl,
    Toml,
    Yaml,
}

/// The template renderer that produces a commented skeleton file.
#[derive(Clone, Copy, Debug, PartialEq, Eq, Structural)]
pub enum TemplateRenderer {
    Jsonc,
    Pkl,
    Toml,
    Yaml,
}

/// The directory, format and file name of one configuration file.
#[derive(Debug)]
pub struct ConfigSettings {
    pub config_dir: ConfigDir,
    pub format: Format,
    pub config_filename: String,
}

/// Whether the path is absolute (starts at the root, `/`).
pub open spec fn is_absolute(p: Seq<char>) -> bool {
    p.len() > 0 && p[0] == '/'
}

/// Appending `name` to `dir` with `/` as separator: an absolute `name`
/// replaces `dir`; a separator is inserted only between a non-empty `dir`
/// that does not already end with one and `name`.
pub open spec fn join_path_spec(dir: Seq<char>, name: Seq<char>) -> Seq<char> {
    if is_absolute(name) {
        name
    } else if dir.len() == 0 || dir.last() == '/' {
        dir + name
    } else {
        dir + seq!['/'] + name
    }
}

/// Joins a file name onto a directory path, as a path push does on a
/// system whose separator is `/`.
pub fn join_path(dir: &str, name: &str) -> (r: String)
    ensures
        r@ == join_path_spec(dir@, name@),
{
    let dir_len = dir.unicode_len();
    let name_len = name.unicode_len();
    if name_len > 0 && name.get_char(0) == '/' {
        return name.to_string();
    }
    let mut r = dir.to_string();
    if dir_len > 0 && dir.get_char(dir_len - 1) != '/' {
        r.append("/");
    }
    r.append(name);
    proof {
        reveal_strlit("/");
    }
    r
}

/// The message of an I/O error that is given context: `msg`, a colon and a
/// space, then the message of the inner error.
pub fn io_error(msg: &str, inner: &str) -> (r: String)
    ensures
        r@ == msg@ + ": "@ + inner@,
{
    let mut r = msg.to_string();
    r.append(": ");
    r.append(inner);
    r
}

/// The renderer of the template written for a format; none for `Format::Unset`.
pub open spec fn renderer_for(format: Format) -> Option<TemplateRenderer> {
    match format {
        Format::Unset => None,
        Format::Json => Some(TemplateRenderer::Jsonc),
        Format::Pkl => Some(TemplateRenderer::Pkl),
        Format::Toml => Some(TemplateRenderer::Toml),
        Format::Yaml => Some(TemplateRenderer::Yaml),
    }
}

/// Chooses the renderer with which the configuration template is written for
/// a format: JSON files get the commented (JSONC) renderer, and no file is
/// written for `Format::Unset`.
pub fn write_config_template(format: Format) -> (r: Option<TemplateRenderer>)
    ensures
        r == renderer_for(format),
{
    match format {
        Format::Unset => None,
        Format::Json => Some(TemplateRenderer::Jsonc),
        Format::Pkl => Some(TemplateRenderer::Pkl),
        Format::Toml => Some(TemplateRenderer::Toml),
        Format::Yaml => Some(TemplateRenderer::Yaml),
    }
}

/// Relies on `directories::ProjectDirs::from` and `ProjectDirs::config_dir`:
/// the platform's configuration directory of a project, or none where no home
/// directory can be found. It depends on the environment, so nothing is
/// promised of it.
#[verifier::external_body]
fn project_config_dir(label: &Label) -> (r: Option<String>) {
    directories::ProjectDirs::from(&label.qualifier, &label.organization, &label.application)
        .map(|dirs| dirs.config_dir().to_string_lossy().into_owned())
}

impl ConfigSettings {
    pub fn new(config_dir: ConfigDir, format: Format, config_filename: String) -> (r: Self)
        ensures
            r.config_dir == config_dir,
            r.format == format,
            r.config_filename == config_filename,
    {
        ConfigSettings { config_dir, format, config_filename }
    }

    /// The configuration directory: the custom one as given, or the project's
    /// directory on this platform, which may be unavailable.
    pub fn get_config_dir(&self) -> (r: Option<String>)
        ensures
            match &self.config_dir {
                ConfigDir::Custom(d) => r == Some(*d),
                ConfigDir::ProjectDir(_) => true,
            },
    {
        match &self.config_dir {
            ConfigDir::Custom(d) => Some(d.clone()),
            ConfigDir::ProjectDir(label) => project_config_dir(label),
        }
    }

    /// The full path of the configuration file inside a configuration directory.
    pub fn full_path_in(&self, dir: &str) -> (r: String)
        ensures
            r@ == join_path_spec(dir@, self.config_filename@),
    {
        join_path(dir, self.config_filename.as_str())
    }

    /// The full path of the configuration file: the file name joined onto the
    /// configuration directory, or none where that directory is unavailable.
    pub fn get_full_path(&self) -> (r: Option<String>)
        ensures
            match &self.config_dir {
                ConfigDir::Custom(d) => r matches Some(p) && p@ == join_path_spec(
                    d@,
                    self.config_filename@,
                ),
                ConfigDir::ProjectDir(_) => r matches Some(p) ==> exists|dir: Seq<char>|
                    p@ == #[trigger] join_path_spec(dir, self.config_filename@),
            },
    {
        match self.get_config_dir() {
            Some(dir) => {
                let p = self.full_path_in(dir.as_str());
                assert(p@ == join_path_spec(dir@, self.config_filename@));
                Some(p)
            },
            None => None,
        }
    }
}

} // verus!
