//! Widget configuration: which widgets sit in each bar section, and the
//! clock's format string. Reading the file and decoding its TOML happen
//! outside the library; the defaults and the path choice are fixed here.

use vstd::prelude::*;

verus! {

use vstd::string::{StrSliceExecFns, StringExecFns};

/// One widget slot in the bar layout.
#[derive(PartialEq, Eq, Structural, Clone, Copy, Debug)]
pub enum WidgetOption {
    PowerMenu,
    Power,
    Clock,
    Display,
    Workspaces,
    HyprlandWorkspace,
    Volume,
    Bluetooth,
    PowerProfile,
    Quit,
}

/// The clock widget's configuration.
pub struct ClockConfig {
    pub format: String,
}

/// Per-widget configuration.
pub struct WidgetConfig {
    pub clock: ClockConfig,
}

/// The bar's configuration: the widgets of each section, and the
/// per-widget settings.
pub struct Config {
    pub left: Vec<WidgetOption>,
    pub middle: Vec<WidgetOption>,
    pub right: Vec<WidgetOption>,
    pub widget: WidgetConfig,
}

/// The clock's default format string.
pub open spec fn spec_default_format() -> Seq<char> {
    "[month padding:none repr:numerical]/[day padding:none] [weekday repr:short] [hour padding:none repr:12]:[minute padding:zero] [period case:upper]"@
}

/// The clock's default format string.
pub fn default_format_string() -> (r: String)
    ensures
        r@ == spec_default_format(),
{
    "[month padding:none repr:numerical]/[day padding:none] [weekday repr:short] [hour padding:none repr:12]:[minute padding:zero] [period case:upper]".to_owned()
}

impl Default for ClockConfig {
    fn default() -> (r: ClockConfig)
        ensures
            r.format@ == spec_default_format(),
    {
        ClockConfig { format: default_format_string() }
    }
}

impl Default for WidgetConfig {
    fn default() -> (r: WidgetConfig)
        ensures
            r.clock.format@ == spec_default_format(),
    {
        WidgetConfig { clock: ClockConfig::default() }
    }
}

impl Default for Config {
    fn default() -> (r: Config)
        ensures
            r.left@ == seq![
                WidgetOption::PowerMenu,
                WidgetOption::Power,
                WidgetOption::Clock,
                WidgetOption::Display,
            ],
            r.middle@ == seq![WidgetOption::Workspaces],
            r.right@ == seq![
                WidgetOption::Volume,
                WidgetOption::Bluetooth,
                WidgetOption::PowerProfile,
            ],
            r.widget.clock.format@ == spec_default_format(),
    {
        let left = vec![
            WidgetOption::PowerMenu,
            WidgetOption::Power,
            WidgetOption::Clock,
            WidgetOption::Display,
        ];
        let middle = vec![WidgetOption::Workspaces];
        let right = vec![
            WidgetOption::Volume,
            WidgetOption::Bluetooth,
            WidgetOption::PowerProfile,
        ];
        proof {
            assert(left@ =~= seq![
                WidgetOption::PowerMenu,
                WidgetOption::Power,
                WidgetOption::Clock,
                WidgetOption::Display,
            ]);
            assert(middle@ =~= seq![WidgetOption::Workspaces]);
            assert(right@ =~= seq![
                WidgetOption::Volume,
                WidgetOption::Bluetooth,
                WidgetOption::PowerProfile,
            ]);
        }
        Config { left, middle, right, widget: WidgetConfig::default() }
    }
}

/// What [`config_path`] yields when the XDG config home cannot be used:
/// the home directory's `.config`, or no path at all.
pub open spec fn spec_home_fallback(home_dir: Option<String>, r: Result<String, String>) -> bool {
    match home_dir {
        Some(d) => r matches Ok(p) && p@ == d@ + "/.config/eucalyptus-twig/eucalyptus-twig.toml"@,
        None => r matches Err(e) && e@ == "Failed to get home directory"@,
    }
}

/// Where the configuration file lives: under a non-empty XDG config home
/// if one is set, else under the home directory's `.config`; with
/// neither available there is no path to read.
pub fn config_path(config_home: Option<String>, home_dir: Option<String>) -> (r: Result<
    String,
    String,
>)
    ensures
        (config_home matches Some(h) ==> if h@.len() > 0 {
            r matches Ok(p) && p@ == h@ + "/eucalyptus-twig/eucalyptus-twig.toml"@
        } else {
            spec_home_fallback(home_dir, r)
        }),
        config_home is None ==> spec_home_fallback(home_dir, r),
{
    match config_home {
        Some(h) => {
            if !h.as_str().is_empty() {
                let mut p = h;
                p.append("/eucalyptus-twig/eucalyptus-twig.toml");
                return Ok(p);
            }
            match home_dir {
                Some(d) => {
                    let mut p = d;
                    p.append("/.config/eucalyptus-twig/eucalyptus-twig.toml");
                    Ok(p)
                },
                None => Err("Failed to get home directory".to_owned()),
            }
        },
        None => {
            match home_dir {
                Some(d) => {
                    let mut p = d;
                    p.append("/.config/eucalyptus-twig/eucalyptus-twig.toml");
                    Ok(p)
                },
                None => Err("Failed to get home directory".to_owned()),
            }
        },
    }
}

} // verus!
