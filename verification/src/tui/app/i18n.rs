//! A small two-language dictionary for page titles and footer words;
//! English is the default and an unknown key translates to itself.

use vstd::prelude::*;
use crate::text::str_eq;

verus! {

/// Display language.
#[derive(Debug, Clone, Copy, PartialEq, Eq, Structural)]
pub enum Lang {
    En,
    Zh,
}

/// The language that a stored setting names: `"zh"` is Chinese, anything
/// else English.
pub open spec fn parse_lang(s: Seq<char>) -> Lang {
    if s == "zh"@ { Lang::Zh } else { Lang::En }
}

impl Default for Lang {
    fn default() -> (r: Self)
        ensures
            r == Lang::En,
    {
        Lang::En
    }
}

impl Lang {
    /// Reads a language setting; unknown values fall back to English.
    pub fn parse(s: &str) -> (r: Self)
        ensures
            r == parse_lang(s@),
    {
        if str_eq(s, "zh") { Lang::Zh } else { Lang::En }
    }

    /// The setting value of a language.
    pub fn as_str(self) -> (r: &'static str)
        ensures
            r@ == (match self { Lang::En => "en"@, Lang::Zh => "zh"@ }),
    {
        match self {
            Lang::En => "en",
            Lang::Zh => "zh",
        }
    }

    /// The other language.
    pub fn toggle(self) -> (r: Self)
        ensures
            r == (match self { Lang::En => Lang::Zh, Lang::Zh => Lang::En }),
    {
        match self {
            Lang::En => Lang::Zh,
            Lang::Zh => Lang::En,
        }
    }
}

/// The dictionary: the (English, Chinese) pair of a known key.
pub open spec fn dictionary(key: Seq<char>) -> Option<(Seq<char>, Seq<char>)> {
    if key == "page.home"@ { Some(("Home"@, "主页"@)) }
    else if key == "page.profiles"@ { Some(("Profiles"@, "配置"@)) }
    else if key == "page.proxies"@ { Some(("Proxies"@, "代理"@)) }
    else if key == "page.connections"@ { Some(("Connections"@, "连接"@)) }
    else if key == "page.logs"@ { Some(("Logs"@, "日志"@)) }
    else if key == "page.settings"@ { Some(("Settings"@, "设置"@)) }
    else if key == "page.rules"@ { Some(("Rules"@, "规则"@)) }
    else if key == "status.ready"@ { Some(("Ready"@, "就绪"@)) }
    else if key == "footer.help"@ { Some(("help"@, "帮助"@)) }
    else if key == "footer.quit"@ { Some(("quit"@, "退出"@)) }
    else { None }
}

/// The translation of `key` in `lang`; a key the dictionary lacks is its
/// own translation.
pub open spec fn translate(lang: Lang, key: Seq<char>) -> Seq<char> {
    match dictionary(key) {
        Some(pair) => match lang { Lang::En => pair.0, Lang::Zh => pair.1 },
        None => key,
    }
}

fn pick<'a>(lang: Lang, en: &'a str, zh: &'a str) -> (r: &'a str)
    ensures
        r@ == (match lang { Lang::En => en@, Lang::Zh => zh@ }),
{
    match lang {
        Lang::En => en,
        Lang::Zh => zh,
    }
}

/// Translates a dictionary key.
pub fn t<'a>(lang: Lang, key: &'a str) -> (r: &'a str)
    ensures
        r@ == translate(lang, key@),
{
    if str_eq(key, "page.home") { pick(lang, "Home", "主页") }
    else if str_eq(key, "page.profiles") { pick(lang, "Profiles", "配置") }
    else if str_eq(key, "page.proxies") { pick(lang, "Proxies", "代理") }
    else if str_eq(key, "page.connections") { pick(lang, "Connections", "连接") }
    else if str_eq(key, "page.logs") { pick(lang, "Logs", "日志") }
    else if str_eq(key, "page.settings") { pick(lang, "Settings", "设置") }
    else if str_eq(key, "page.rules") { pick(lang, "Rules", "规则") }
    else if str_eq(key, "status.ready") { pick(lang, "Ready", "就绪") }
    else if str_eq(key, "footer.help") { pick(lang, "help", "帮助") }
    else if str_eq(key, "footer.quit") { pick(lang, "quit", "退出") }
    else { key }
}

} // verus!
