//! User-facing text in the user's language: an immutable table, built
//! once and handed to whoever prints.

use vstd::prelude::*;
use crate::text::str_eq;

verus! {

/// One translated text.
#[derive(Debug, Clone)]
pub struct Translation {
    pub lang: String,
    pub key: String,
    pub text: String,
}

/// An entry as (language, key, text).
pub open spec fn entry_view(t: Translation) -> (Seq<char>, Seq<char>, Seq<char>) {
    (t.lang@, t.key@, t.text@)
}

/// The text of `key` in `lang`: the first entry that matches both.
pub open spec fn lookup(entries: Seq<(Seq<char>, Seq<char>, Seq<char>)>, lang: Seq<char>, key: Seq<char>) -> Option<Seq<char>>
    decreases entries.len(),
{
    if entries.len() == 0 {
        None
    } else if entries[0].0 == lang && entries[0].1 == key {
        Some(entries[0].2)
    } else {
        lookup(entries.drop_first(), lang, key)
    }
}

/// The table every localizer holds: English and Chinese texts, by key.
pub open spec fn default_translations() -> Seq<(Seq<char>, Seq<char>, Seq<char>)> {
    first_part() + second_part() + third_part() + fourth_part()
}

pub open spec fn first_part() -> Seq<(Seq<char>, Seq<char>, Seq<char>)> {
    seq![
        ("en"@, "app_description"@, "A unified development environment manager"@),
        ("en"@, "command_init_description"@, "Initialize enman environment"@),
        ("en"@, "command_install_description"@, "Install a specific version of a tool"@),
        ("en"@, "command_global_description"@, "Set global default tool version"@),
        ("en"@, "command_list_description"@, "List installed or available versions"@),
        ("en"@, "command_use_description"@, "Temporarily switch tool version for current session"@),
        ("en"@, "command_uninstall_description"@, "Uninstall a specific version of a tool"@),
        ("en"@, "command_config_description"@, "Manage project-level configuration"@),
        ("en"@, "arg_tool_version_help"@, "Tool and version in format: tool@version (e.g., node@20.10.0)"@),
        ("en"@, "arg_tool_help"@, "Tool name (e.g., node, python, java)"@),
        ("en"@, "arg_version_help"@, "Version (e.g., 18.17.0, latest)"@),
        ("en"@, "arg_remote_help"@, "Show remote available versions"@),
        ("en"@, "arg_available_help"@, "Show all available tools"@),
        ("en"@, "Installing"@, "Installing"@),
        ("en"@, "Switching to"@, "Switching to"@),
        ("en"@, "Warning: Could not stop current MySQL service:"@, "Warning: Could not stop current MySQL service:"@),
        ("en"@, "Stopped previous MySQL service"@, "Stopped previous MySQL service"@),
        ("en"@, "Warning: Could not start new MySQL service:"@, "Warning: Could not start new MySQL service:"@),
        ("en"@, "Please start MySQL manually using: .\\bin\\mysqld --defaults-file=my.ini --console"@, "Please start MySQL manually using: .\\bin\\mysqld --defaults-file=my.ini --console"@),
    ]
}

pub open spec fn second_part() -> Seq<(Seq<char>, Seq<char>, Seq<char>)> {
    seq![
        ("en"@, "Started new MySQL service for version"@, "Started new MySQL service for version"@),
        ("en"@, "Successfully set global"@, "Successfully set global"@),
        ("en"@, "to version"@, "to version"@),
        ("en"@, "Latest versions"@, "Latest versions"@),
        ("en"@, "Failed to fetch"@, "Failed to fetch"@),
        ("en"@, "versions"@, "versions"@),
        ("en"@, "Common Node.js versions"@, "Common Node.js versions"@),
        ("en"@, "Common Java versions"@, "Common Java versions"@),
        ("en"@, "Common Python versions"@, "Common Python versions"@),
        ("en"@, "Supported"@, "Supported"@),
        ("en"@, "Tool is not supported for remote version listing"@, "Tool is not supported for remote version listing"@),
        ("en"@, "Available tools that can be installed:"@, "Available tools that can be installed:"@),
        ("en"@, "To see available versions for a tool, use"@, "To see available versions for a tool, use"@),
        ("en"@, "No versions of"@, "No versions of"@),
        ("en"@, "installed"@, "installed"@),
        ("en"@, "local"@, "local"@),
        ("en"@, "global"@, "global"@),
        ("en"@, "not installed"@, "not installed"@),
        ("en"@, "No global versions set."@, "No global versions set."@),
    ]
}

pub open spec fn third_part() -> Seq<(Seq<char>, Seq<char>, Seq<char>)> {
    seq![
        ("zh"@, "app_description"@, "统一开发环境管理器"@),
        ("zh"@, "command_init_description"@, "初始化 enman 环境"@),
        ("zh"@, "command_install_description"@, "安装指定版本的工具"@),
        ("zh"@, "command_global_description"@, "设置全局默认工具版本"@),
        ("zh"@, "command_list_description"@, "列出已安装或可用的版本"@),
        ("zh"@, "command_use_description"@, "临时切换当前会话的工具版本"@),
        ("zh"@, "command_uninstall_description"@, "卸载指定版本的工具"@),
        ("zh"@, "command_config_description"@, "管理项目级配置"@),
        ("zh"@, "arg_tool_version_help"@, "工具和版本，格式：tool@version (例如，node@20.10.0)"@),
        ("zh"@, "arg_tool_help"@, "工具名称 (例如，node, python, java)"@),
        ("zh"@, "arg_version_help"@, "版本 (例如，18.17.0, latest)"@),
        ("zh"@, "arg_remote_help"@, "显示远程可用版本"@),
        ("zh"@, "arg_available_help"@, "显示所有可用工具"@),
        ("zh"@, "Installing"@, "正在安装"@),
        ("zh"@, "Switching to"@, "正在切换到"@),
        ("zh"@, "Warning: Could not stop current MySQL service:"@, "警告：无法停止当前 MySQL 服务："@),
        ("zh"@, "Stopped previous MySQL service"@, "已停止之前的 MySQL 服务"@),
        ("zh"@, "Warning: Could not start new MySQL service:"@, "警告：无法启动新的 MySQL 服务："@),
        ("zh"@, "Please start MySQL manually using: .\\bin\\mysqld --defaults-file=my.ini --console"@, "请手动启动 MySQL：.\\bin\\mysqld --defaults-file=my.ini --console"@),
    ]
}

pub open spec fn fourth_part() -> Seq<(Seq<char>, Seq<char>, Seq<char>)> {
    seq![
        ("zh"@, "Started new MySQL service for version"@, "已为版本启动新的 MySQL 服务"@),
        ("zh"@, "Successfully set global"@, "成功设置全局"@),
        ("zh"@, "to version"@, "到版本"@),
        ("zh"@, "Latest versions"@, "最新版本"@),
        ("zh"@, "Failed to fetch"@, "获取失败"@),
        ("zh"@, "versions"@, "版本"@),
        ("zh"@, "Common Node.js versions"@, "常见 Node.js 版本"@),
        ("zh"@, "Common Java versions"@, "常见 Java 版本"@),
        ("zh"@, "Common Python versions"@, "常见 Python 版本"@),
        ("zh"@, "Supported"@, "支持的"@),
        ("zh"@, "Tool is not supported for remote version listing"@, "该工具不支持远程版本查询"@),
        ("zh"@, "Available tools that can be installed:"@, "可安装的工具："@),
        ("zh"@, "To see available versions for a tool, use"@, "查看工具的可用版本，请使用"@),
        ("zh"@, "No versions of"@, "没有安装"@),
        ("zh"@, "installed"@, "的版本"@),
        ("zh"@, "local"@, "本地"@),
        ("zh"@, "global"@, "全局"@),
        ("zh"@, "not installed"@, "未安装"@),
        ("zh"@, "No global versions set."@, "未设置全局版本。"@),
    ]
}

/// A translation table and the language it speaks.
pub struct Localizer {
    lang: String,
    translations: Vec<Translation>,
}

/// The language of a locale name: Chinese for `zh...`, English otherwise.
pub open spec fn spec_language_of(locale: Seq<char>) -> Seq<char> {
    if locale.len() >= 2 && locale[0] == 'z' && locale[1] == 'h' {
        "zh"@
    } else {
        "en"@
    }
}

/// The language to speak for a locale name such as `zh_CN.UTF-8`.
pub fn language_of(locale: &str) -> (r: String)
    ensures
        r@ == spec_language_of(locale@),
{
    if locale.unicode_len() >= 2 && locale.get_char(0) == 'z' && locale.get_char(1) == 'h' {
        String::from_str("zh")
    } else {
        String::from_str("en")
    }
}

fn add_entry(entries: &mut Vec<Translation>, lang: &str, key: &str, text: &str)
    ensures
        final(entries)@.map_values(|t: Translation| entry_view(t))
            == old(entries)@.map_values(|t: Translation| entry_view(t)).push((lang@, key@, text@)),
{
    entries.push(Translation { lang: String::from_str(lang), key: String::from_str(key), text: String::from_str(text) });
    assert(final(entries)@.map_values(|t: Translation| entry_view(t))
        =~= old(entries)@.map_values(|t: Translation| entry_view(t)).push((lang@, key@, text@)));
}

fn add_first_part(entries: &mut Vec<Translation>)
    ensures
        final(entries)@.map_values(|t: Translation| entry_view(t))
            == old(entries)@.map_values(|t: Translation| entry_view(t)) + first_part(),
{
    add_entry(entries, "en", "app_description", "A unified development environment manager");
    add_entry(entries, "en", "command_init_description", "Initialize enman environment");
    add_entry(entries, "en", "command_install_description", "Install a specific version of a tool");
    add_entry(entries, "en", "command_global_description", "Set global default tool version");
    add_entry(entries, "en", "command_list_description", "List installed or available versions");
    add_entry(entries, "en", "command_use_description", "Temporarily switch tool version for current session");
    add_entry(entries, "en", "command_uninstall_description", "Uninstall a specific version of a tool");
    add_entry(entries, "en", "command_config_description", "Manage project-level configuration");
    add_entry(entries, "en", "arg_tool_version_help", "Tool and version in format: tool@version (e.g., node@20.10.0)");
    add_entry(entries, "en", "arg_tool_help", "Tool name (e.g., node, python, java)");
    add_entry(entries, "en", "arg_version_help", "Version (e.g., 18.17.0, latest)");
    add_entry(entries, "en", "arg_remote_help", "Show remote available versions");
    add_entry(entries, "en", "arg_available_help", "Show all available tools");
    add_entry(entries, "en", "Installing", "Installing");
    add_entry(entries, "en", "Switching to", "Switching to");
    add_entry(entries, "en", "Warning: Could not stop current MySQL service:", "Warning: Could not stop current MySQL service:");
    add_entry(entries, "en", "Stopped previous MySQL service", "Stopped previous MySQL service");
    add_entry(entries, "en", "Warning: Could not start new MySQL service:", "Warning: Could not start new MySQL service:");
    add_entry(entries, "en", "Please start MySQL manually using: .\\bin\\mysqld --defaults-file=my.ini --console", "Please start MySQL manually using: .\\bin\\mysqld --defaults-file=my.ini --console");
    assert(final(entries)@.map_values(|t: Translation| entry_view(t))
        =~= old(entries)@.map_values(|t: Translation| entry_view(t)) + first_part());
}

fn add_second_part(entries: &mut Vec<Translation>)
    ensures
        final(entries)@.map_values(|t: Translation| entry_view(t))
            == old(entries)@.map_values(|t: Translation| entry_view(t)) + second_part(),
{
    add_entry(entries, "en", "Started new MySQL service for version", "Started new MySQL service for version");
    add_entry(entries, "en", "Successfully set global", "Successfully set global");
    add_entry(entries, "en", "to version", "to version");
    add_entry(entries, "en", "Latest versions", "Latest versions");
    add_entry(entries, "en", "Failed to fetch", "Failed to fetch");
    add_entry(entries, "en", "versions", "versions");
    add_entry(entries, "en", "Common Node.js versions", "Common Node.js versions");
    add_entry(entries, "en", "Common Java versions", "Common Java versions");
    add_entry(entries, "en", "Common Python versions", "Common Python versions");
    add_entry(entries, "en", "Supported", "Supported");
    add_entry(entries, "en", "Tool is not supported for remote version listing", "Tool is not supported for remote version listing");
    add_entry(entries, "en", "Available tools that can be installed:", "Available tools that can be installed:");
    add_entry(entries, "en", "To see available versions for a tool, use", "To see available versions for a tool, use");
    add_entry(entries, "en", "No versions of", "No versions of");
    add_entry(entries, "en", "installed", "installed");
    add_entry(entries, "en", "local", "local");
    add_entry(entries, "en", "global", "global");
    add_entry(entries, "en", "not installed", "not installed");
    add_entry(entries, "en", "No global versions set.", "No global versions set.");
    assert(final(entries)@.map_values(|t: Translation| entry_view(t))
        =~= old(entries)@.map_values(|t: Translation| entry_view(t)) + second_part());
}

fn add_third_part(entries: &mut Vec<Translation>)
    ensures
        final(entries)@.map_values(|t: Translation| entry_view(t))
            == old(entries)@.map_values(|t: Translation| entry_view(t)) + third_part(),
{
    add_entry(entries, "zh", "app_description", "统一开发环境管理器");
    add_entry(entries, "zh", "command_init_description", "初始化 enman 环境");
    add_entry(entries, "zh", "command_install_description", "安装指定版本的工具");
    add_entry(entries, "zh", "command_global_description", "设置全局默认工具版本");
    add_entry(entries, "zh", "command_list_description", "列出已安装或可用的版本");
    add_entry(entries, "zh", "command_use_description", "临时切换当前会话的工具版本");
    add_entry(entries, "zh", "command_uninstall_description", "卸载指定版本的工具");
    add_entry(entries, "zh", "command_config_description", "管理项目级配置");
    add_entry(entries, "zh", "arg_tool_version_help", "工具和版本，格式：tool@version (例如，node@20.10.0)");
    add_entry(entries, "zh", "arg_tool_help", "工具名称 (例如，node, python, java)");
    add_entry(entries, "zh", "arg_version_help", "版本 (例如，18.17.0, latest)");
    add_entry(entries, "zh", "arg_remote_help", "显示远程可用版本");
    add_entry(entries, "zh", "arg_available_help", "显示所有可用工具");
    add_entry(entries, "zh", "Installing", "正在安装");
    add_entry(entries, "zh", "Switching to", "正在切换到");
    add_entry(entries, "zh", "Warning: Could not stop current MySQL service:", "警告：无法停止当前 MySQL 服务：");
    add_entry(entries, "zh", "Stopped previous MySQL service", "已停止之前的 MySQL 服务");
    add_entry(entries, "zh", "Warning: Could not start new MySQL service:", "警告：无法启动新的 MySQL 服务：");
    add_entry(entries, "zh", "Please start MySQL manually using: .\\bin\\mysqld --defaults-file=my.ini --console", "请手动启动 MySQL：.\\bin\\mysqld --defaults-file=my.ini --console");
    assert(final(entries)@.map_values(|t: Translation| entry_view(t))
        =~= old(entries)@.map_values(|t: Translation| entry_view(t)) + third_part());
}

fn add_fourth_part(entries: &mut Vec<Translation>)
    ensures
        final(entries)@.map_values(|t: Translation| entry_view(t))
            == old(entries)@.map_values(|t: Translation| entry_view(t)) + fourth_part(),
{
    add_entry(entries, "zh", "Started new MySQL service for version", "已为版本启动新的 MySQL 服务");
    add_entry(entries, "zh", "Successfully set global", "成功设置全局");
    add_entry(entries, "zh", "to version", "到版本");
    add_entry(entries, "zh", "Latest versions", "最新版本");
    add_entry(entries, "zh", "Failed to fetch", "获取失败");
    add_entry(entries, "zh", "versions", "版本");
    add_entry(entries, "zh", "Common Node.js versions", "常见 Node.js 版本");
    add_entry(entries, "zh", "Common Java versions", "常见 Java 版本");
    add_entry(entries, "zh", "Common Python versions", "常见 Python 版本");
    add_entry(entries, "zh", "Supported", "支持的");
    add_entry(entries, "zh", "Tool is not supported for remote version listing", "该工具不支持远程版本查询");
    add_entry(entries, "zh", "Available tools that can be installed:", "可安装的工具：");
    add_entry(entries, "zh", "To see available versions for a tool, use", "查看工具的可用版本，请使用");
    add_entry(entries, "zh", "No versions of", "没有安装");
    add_entry(entries, "zh", "installed", "的版本");
    add_entry(entries, "zh", "local", "本地");
    add_entry(entries, "zh", "global", "全局");
    add_entry(entries, "zh", "not installed", "未安装");
    add_entry(entries, "zh", "No global versions set.", "未设置全局版本。");
    assert(final(entries)@.map_values(|t: Translation| entry_view(t))
        =~= old(entries)@.map_values(|t: Translation| entry_view(t)) + fourth_part());
}

impl Localizer {
    pub closed spec fn spec_lang(&self) -> Seq<char> {
        self.lang@
    }

    pub closed spec fn spec_entries(&self) -> Seq<(Seq<char>, Seq<char>, Seq<char>)> {
        self.translations@.map_values(|t: Translation| entry_view(t))
    }

    /// The table of English and Chinese texts, speaking `lang`.
    pub fn new(lang: &str) -> (r: Localizer)
        ensures
            r.spec_lang() == lang@,
            r.spec_entries() == default_translations(),
    {
        let mut entries: Vec<Translation> = Vec::new();
        assert(entries@.map_values(|t: Translation| entry_view(t)) =~= seq![]);
        add_first_part(&mut entries);
        add_second_part(&mut entries);
        add_third_part(&mut entries);
        add_fourth_part(&mut entries);
        assert(entries@.map_values(|t: Translation| entry_view(t)) =~= default_translations());
        Localizer { lang: String::from_str(lang), translations: entries }
    }

    fn find(&self, lang: &str, key: &str) -> (r: Option<String>)
        ensures
            r matches Some(t) ==> lookup(self.spec_entries(), lang@, key@) == Some(t@),
            r is None ==> lookup(self.spec_entries(), lang@, key@) is None,
    {
        let n = self.translations.len();
        let ghost ev = self.spec_entries();
        let mut i: usize = 0;
        assert(ev.subrange(0, n as int) =~= ev);
        while i < n
            invariant
                n == self.translations@.len(),
                ev == self.spec_entries(),
                ev.len() == n,
                i <= n,
                lookup(ev, lang@, key@) == lookup(ev.subrange(i as int, n as int), lang@, key@),
            decreases n - i,
        {
            let e = &self.translations[i];
            assert(ev[i as int] == entry_view(*e));
            assert(ev.subrange(i as int, n as int).drop_first() =~= ev.subrange(i + 1, n as int));
            if str_eq(e.lang.as_str(), lang) && str_eq(e.key.as_str(), key) {
                return Some(e.text.clone());
            }
            i = i + 1;
        }
        None
    }

    /// The text of `key`: in the table's language, else in English, else
    /// the key itself.
    pub fn t(&self, key: &str) -> (r: String)
        ensures
            r@ == match lookup(self.spec_entries(), self.spec_lang(), key@) {
                Some(t) => t,
                None => match lookup(self.spec_entries(), "en"@, key@) {
                    Some(t) => t,
                    None => key@,
                },
            },
    {
        match self.find(self.lang.as_str(), key) {
            Some(t) => t,
            None => match self.find("en", key) {
                Some(t) => t,
                None => String::from_str(key),
            },
        }
    }
}

} // verus!
