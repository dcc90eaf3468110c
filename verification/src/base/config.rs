//! Where the configuration is looked for, the configuration written where
//! there is none, and how its text is read.

use vstd::prelude::*;
use crate::text::{join2, join3, to_string};
use crate::document::{kdl_parse, kdl_document_nodes, kdl_error_text, parse_kdl};

verus! {

/// The configuration file in the working directory, looked at first.
pub open spec fn local_config_path() -> Seq<char> {
    "config.kdl"@
}

/// The configuration file under the home directory `home`, looked at
/// second: `.config/de-configurator/config.kdl` joined to it as
/// `PathBuf::join` does (a `/` between them unless `home` is empty or
/// already ends in one).
pub open spec fn home_config_path(home: Seq<char>) -> Seq<char> {
    if home.len() == 0 {
        ".config/de-configurator/config.kdl"@
    } else if home.last() == '/' {
        home + ".config/de-configurator/config.kdl"@
    } else {
        home + "/"@ + ".config/de-configurator/config.kdl"@
    }
}

/// The configuration written to `config.kdl` where none is found.
pub open spec fn default_config_text() -> Seq<char> {
    "feature \"vpn\" enabled=true {\n    state \"off\" {\n        display-name \"VPN выключен\"\n    }\n\n    state \"warp\" {\n        display-name \"Warp\"\n        interface \"w\"\n        up-cmd \"doas\" \"wg-quick\" \"up\" \"w\"\n        down-cmd \"doas\" \"wg-quick\" \"down\" \"w\"\n    }\n\n    state \"finland\" {\n        display-name \"Финляндия\"\n        interface \"fl\"\n        up-cmd \"doas\" \"wg-quick\" \"up\" \"fl\"\n        down-cmd \"doas\" \"wg-quick\" \"down\" \"fl\"\n    }\n}\n\nfeature \"keybinds\" enabled=true {\n    bind \"ctrl+shift+t\" {\n        run \"alacritty\"\n    }\n    \n    bind \"ctrl+shift+w\" {\n        vpn \"warp\"\n    }\n\n    bind \"ctrl+shift+o\" {\n        vpn \"off\"\n    }\n}\n"@
}

/// The text of a configuration that does not parse.
pub open spec fn config_parse_error() -> Seq<char> {
    "Ошибка парсинга KDL: "@ + kdl_error_text()
}

/// The configuration written where none is found.
pub fn default_config() -> (r: &'static str)
    ensures
        r@ == default_config_text(),
{
    "feature \"vpn\" enabled=true {\n    state \"off\" {\n        display-name \"VPN выключен\"\n    }\n\n    state \"warp\" {\n        display-name \"Warp\"\n        interface \"w\"\n        up-cmd \"doas\" \"wg-quick\" \"up\" \"w\"\n        down-cmd \"doas\" \"wg-quick\" \"down\" \"w\"\n    }\n\n    state \"finland\" {\n        display-name \"Финляндия\"\n        interface \"fl\"\n        up-cmd \"doas\" \"wg-quick\" \"up\" \"fl\"\n        down-cmd \"doas\" \"wg-quick\" \"down\" \"fl\"\n    }\n}\n\nfeature \"keybinds\" enabled=true {\n    bind \"ctrl+shift+t\" {\n        run \"alacritty\"\n    }\n    \n    bind \"ctrl+shift+w\" {\n        vpn \"warp\"\n    }\n\n    bind \"ctrl+shift+o\" {\n        vpn \"off\"\n    }\n}\n"
}

/// The configuration files to look for, in order: the one in the working
/// directory, then, where the home directory is known, the one under it.
pub fn config_candidates(home: Option<&str>) -> (r: Vec<String>)
    ensures
        r@.map_values(|s: String| s@) == match home {
            Some(h) => seq![local_config_path(), home_config_path(h@)],
            None => seq![local_config_path()],
        },
{
    let mut r: Vec<String> = Vec::new();
    r.push(to_string("config.kdl"));
    match home {
        Some(h) => {
            let n = h.unicode_len();
            let p = if n == 0 {
                to_string(".config/de-configurator/config.kdl")
            } else if h.get_char(n - 1) == '/' {
                join2(h, ".config/de-configurator/config.kdl")
            } else {
                join3(h, "/", ".config/de-configurator/config.kdl")
            };
            r.push(p);
            assert(r@.map_values(|s: String| s@) =~= seq![local_config_path(), home_config_path(h@)]);
        },
        None => {
            assert(r@.map_values(|s: String| s@) =~= seq![local_config_path()]);
        },
    }
    r
}

/// The configuration document of a configuration text.
pub fn parse_config(text: &str) -> (r: Result<kdl::KdlDocument, String>)
    ensures
        r is Ok <==> kdl_parse(text@) is Some,
        r matches Ok(d) ==> kdl_parse(text@) == Some(kdl_document_nodes(d)),
        r matches Err(e) ==> e@ == config_parse_error(),
{
    match parse_kdl(text) {
        Ok(d) => Ok(d),
        Err(e) => Err(join2("Ошибка парсинга KDL: ", e.as_str())),
    }
}

} // verus!
