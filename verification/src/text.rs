//! The interface catalogue: the two languages the interface speaks and the
//! sentences the library hands back in each.

use vstd::prelude::*;

verus! {

/// The interface language.
#[derive(Clone, Copy, Debug, PartialEq, Eq, Structural)]
pub enum UiLanguage {
    English,
    Chinese,
}

/// Every language the interface ships.
pub fn languages() -> (all: [UiLanguage; 2])
    ensures
        all@ == seq![UiLanguage::English, UiLanguage::Chinese],
{
    let all = [UiLanguage::English, UiLanguage::Chinese];
    assert(all@ =~= seq![UiLanguage::English, UiLanguage::Chinese]);
    all
}

/// The sentences of one language.
#[derive(Clone, Copy, Debug)]
pub struct Text {
    pub update_state_idle: &'static str,
    pub update_state_checking: &'static str,
    pub update_state_current: &'static str,
    pub update_state_available: &'static str,
    pub update_state_downloading: &'static str,
    pub update_state_installing: &'static str,
    pub update_state_installed: &'static str,
    pub update_badge: &'static str,
    pub update_error_unreachable: &'static str,
    pub update_error_rate_limited: &'static str,
    pub update_error_no_release: &'static str,
    pub update_error_rejected: &'static str,
    pub update_error_malformed: &'static str,
    pub update_error_no_package: &'static str,
    pub update_error_too_large: &'static str,
    pub update_error_storage: &'static str,
    pub update_error_bad_archive: &'static str,
    pub update_error_mismatch: &'static str,
    pub update_error_read_only: &'static str,
    pub update_error_half_applied: &'static str,
    pub update_half_program_restored: &'static str,
    pub update_half_program_lost: &'static str,
    pub update_half_already_new: &'static str,
    pub role_target: &'static str,
    pub role_bridge: &'static str,
    pub role_watch_only: &'static str,
    pub role_unlisted: &'static str,
    pub radar_verdict_instant: &'static str,
    pub radar_verdict_maker: &'static str,
    pub radar_verdict_probe: &'static str,
    pub radar_verdict_outlier: &'static str,
    pub freshness_fresh: &'static str,
    pub freshness_usable: &'static str,
    pub freshness_stale: &'static str,
    pub freshness_archived: &'static str,
}

/// A sentence that says something: it is not empty and does not start
/// with whitespace, so it stays non-blank when trimmed.
pub open spec fn says_something(s: Seq<char>) -> bool {
    s.len() > 0 && !crate::numbers::is_ws(s[0])
}

impl Text {
    /// Every sentence says something.
    pub open spec fn wf(&self) -> bool {
        &&& says_something(self.update_state_idle@)
        &&& says_something(self.update_state_checking@)
        &&& says_something(self.update_state_current@)
        &&& says_something(self.update_state_available@)
        &&& says_something(self.update_state_downloading@)
        &&& says_something(self.update_state_installing@)
        &&& says_something(self.update_state_installed@)
        &&& says_something(self.update_badge@)
        &&& says_something(self.update_error_unreachable@)
        &&& says_something(self.update_error_rate_limited@)
        &&& says_something(self.update_error_no_release@)
        &&& says_something(self.update_error_rejected@)
        &&& says_something(self.update_error_malformed@)
        &&& says_something(self.update_error_no_package@)
        &&& says_something(self.update_error_too_large@)
        &&& says_something(self.update_error_storage@)
        &&& says_something(self.update_error_bad_archive@)
        &&& says_something(self.update_error_mismatch@)
        &&& says_something(self.update_error_read_only@)
        &&& says_something(self.update_error_half_applied@)
        &&& says_something(self.update_half_program_restored@)
        &&& says_something(self.update_half_program_lost@)
        &&& says_something(self.update_half_already_new@)
        &&& says_something(self.role_target@)
        &&& says_something(self.role_bridge@)
        &&& says_something(self.role_watch_only@)
        &&& says_something(self.role_unlisted@)
        &&& says_something(self.radar_verdict_instant@)
        &&& says_something(self.radar_verdict_maker@)
        &&& says_something(self.radar_verdict_probe@)
        &&& says_something(self.radar_verdict_outlier@)
        &&& says_something(self.freshness_fresh@)
        &&& says_something(self.freshness_usable@)
        &&& says_something(self.freshness_stale@)
        &&& says_something(self.freshness_archived@)
    }
}

/// The English catalogue.
pub open spec fn english() -> Text {
    Text {
        update_state_idle: "not checked yet",
        update_state_checking: "checking for a new version…",
        update_state_current: "this is the latest version",
        update_state_available: "a newer version is available",
        update_state_downloading: "downloading and checking the package…",
        update_state_installing: "replacing the installed files…",
        update_state_installed: "installed; it runs from the next start",
        update_badge: "new version:",
        update_error_unreachable: "could not reach the release server",
        update_error_rate_limited: "the release server is rate limiting this address; try again later",
        update_error_no_release: "no release has been published yet",
        update_error_rejected: "the release server refused the request",
        update_error_malformed: "the release server's answer could not be read",
        update_error_no_package: "the release carries no package for this program",
        update_error_too_large: "the package is larger than allowed",
        update_error_storage: "could not write",
        update_error_bad_archive: "the package is damaged",
        update_error_mismatch: "the package does not match its manifest",
        update_error_read_only: "the install folder cannot be written",
        update_error_half_applied: "the update stopped halfway",
        update_half_program_restored: "the program itself was put back",
        update_half_program_lost: "the program itself could not be put back",
        update_half_already_new: "already new",
        role_target: "target",
        role_bridge: "bridge",
        role_watch_only: "watch only",
        role_unlisted: "unlisted",
        radar_verdict_instant: "now",
        radar_verdict_maker: "maker",
        radar_verdict_probe: "probe",
        radar_verdict_outlier: "outlier",
        freshness_fresh: "fresh",
        freshness_usable: "aging",
        freshness_stale: "stale",
        freshness_archived: "archived",
    }
}

/// The Chinese catalogue.
pub open spec fn chinese() -> Text {
    Text {
        update_state_idle: "尚未检查",
        update_state_checking: "正在检查新版本…",
        update_state_current: "已是最新版本",
        update_state_available: "有新版本可以安装",
        update_state_downloading: "正在下载并核对安装包…",
        update_state_installing: "正在替换安装目录里的文件…",
        update_state_installed: "已装好,重启后生效",
        update_badge: "新版本:",
        update_error_unreachable: "连不上发布服务器",
        update_error_rate_limited: "发布服务器限制了访问频率,请稍后再试",
        update_error_no_release: "还没有发布任何版本",
        update_error_rejected: "发布服务器拒绝了请求",
        update_error_malformed: "发布服务器的回复无法解析",
        update_error_no_package: "这个版本没有本程序的安装包",
        update_error_too_large: "安装包超过了允许的大小",
        update_error_storage: "无法写入",
        update_error_bad_archive: "安装包已损坏",
        update_error_mismatch: "安装包与清单不符",
        update_error_read_only: "安装目录不可写",
        update_error_half_applied: "更新在中途停止",
        update_half_program_restored: "主程序已恢复为旧版",
        update_half_program_lost: "主程序未能恢复",
        update_half_already_new: "已换成新版的文件",
        role_target: "目标",
        role_bridge: "中转",
        role_watch_only: "仅观察",
        role_unlisted: "未列入",
        radar_verdict_instant: "可执行",
        radar_verdict_maker: "挂单",
        radar_verdict_probe: "需探测",
        radar_verdict_outlier: "异常",
        freshness_fresh: "新鲜",
        freshness_usable: "偏旧",
        freshness_stale: "过期",
        freshness_archived: "归档",
    }
}

/// The catalogue of one language.
pub open spec fn catalogue(language: UiLanguage) -> Text {
    match language {
        UiLanguage::English => english(),
        UiLanguage::Chinese => chinese(),
    }
}

/// The catalogue of one language.
pub fn text(language: UiLanguage) -> (t: Text)
    ensures
        t == catalogue(language),
        t.wf(),
{
    match language {
        UiLanguage::English => {
            proof {
                reveal_strlit("not checked yet");
                reveal_strlit("checking for a new version…");
                reveal_strlit("this is the latest version");
                reveal_strlit("a newer version is available");
                reveal_strlit("downloading and checking the package…");
                reveal_strlit("replacing the installed files…");
                reveal_strlit("installed; it runs from the next start");
                reveal_strlit("new version:");
                reveal_strlit("could not reach the release server");
                reveal_strlit("the release server is rate limiting this address; try again later");
                reveal_strlit("no release has been published yet");
                reveal_strlit("the release server refused the request");
                reveal_strlit("the release server's answer could not be read");
                reveal_strlit("the release carries no package for this program");
                reveal_strlit("the package is larger than allowed");
                reveal_strlit("could not write");
                reveal_strlit("the package is damaged");
                reveal_strlit("the package does not match its manifest");
                reveal_strlit("the install folder cannot be written");
                reveal_strlit("the update stopped halfway");
                reveal_strlit("the program itself was put back");
                reveal_strlit("the program itself could not be put back");
                reveal_strlit("already new");
                reveal_strlit("target");
                reveal_strlit("bridge");
                reveal_strlit("watch only");
                reveal_strlit("unlisted");
                reveal_strlit("now");
                reveal_strlit("maker");
                reveal_strlit("probe");
                reveal_strlit("outlier");
                reveal_strlit("fresh");
                reveal_strlit("aging");
                reveal_strlit("stale");
                reveal_strlit("archived");
            }
            Text {
                update_state_idle: "not checked yet",
                update_state_checking: "checking for a new version…",
                update_state_current: "this is the latest version",
                update_state_available: "a newer version is available",
                update_state_downloading: "downloading and checking the package…",
                update_state_installing: "replacing the installed files…",
                update_state_installed: "installed; it runs from the next start",
                update_badge: "new version:",
                update_error_unreachable: "could not reach the release server",
                update_error_rate_limited: "the release server is rate limiting this address; try again later",
                update_error_no_release: "no release has been published yet",
                update_error_rejected: "the release server refused the request",
                update_error_malformed: "the release server's answer could not be read",
                update_error_no_package: "the release carries no package for this program",
                update_error_too_large: "the package is larger than allowed",
                update_error_storage: "could not write",
                update_error_bad_archive: "the package is damaged",
                update_error_mismatch: "the package does not match its manifest",
                update_error_read_only: "the install folder cannot be written",
                update_error_half_applied: "the update stopped halfway",
                update_half_program_restored: "the program itself was put back",
                update_half_program_lost: "the program itself could not be put back",
                update_half_already_new: "already new",
                role_target: "target",
                role_bridge: "bridge",
                role_watch_only: "watch only",
                role_unlisted: "unlisted",
                radar_verdict_instant: "now",
                radar_verdict_maker: "maker",
                radar_verdict_probe: "probe",
                radar_verdict_outlier: "outlier",
                freshness_fresh: "fresh",
                freshness_usable: "aging",
                freshness_stale: "stale",
                freshness_archived: "archived",
            }
        },
        UiLanguage::Chinese => {
            proof {
                reveal_strlit("尚未检查");
                reveal_strlit("正在检查新版本…");
                reveal_strlit("已是最新版本");
                reveal_strlit("有新版本可以安装");
                reveal_strlit("正在下载并核对安装包…");
                reveal_strlit("正在替换安装目录里的文件…");
                reveal_strlit("已装好,重启后生效");
                reveal_strlit("新版本:");
                reveal_strlit("连不上发布服务器");
                reveal_strlit("发布服务器限制了访问频率,请稍后再试");
                reveal_strlit("还没有发布任何版本");
                reveal_strlit("发布服务器拒绝了请求");
                reveal_strlit("发布服务器的回复无法解析");
                reveal_strlit("这个版本没有本程序的安装包");
                reveal_strlit("安装包超过了允许的大小");
                reveal_strlit("无法写入");
                reveal_strlit("安装包已损坏");
                reveal_strlit("安装包与清单不符");
                reveal_strlit("安装目录不可写");
                reveal_strlit("更新在中途停止");
                reveal_strlit("主程序已恢复为旧版");
                reveal_strlit("主程序未能恢复");
                reveal_strlit("已换成新版的文件");
                reveal_strlit("目标");
                reveal_strlit("中转");
                reveal_strlit("仅观察");
                reveal_strlit("未列入");
                reveal_strlit("可执行");
                reveal_strlit("挂单");
                reveal_strlit("需探测");
                reveal_strlit("异常");
                reveal_strlit("新鲜");
                reveal_strlit("偏旧");
                reveal_strlit("过期");
                reveal_strlit("归档");
            }
            Text {
                update_state_idle: "尚未检查",
                update_state_checking: "正在检查新版本…",
                update_state_current: "已是最新版本",
                update_state_available: "有新版本可以安装",
                update_state_downloading: "正在下载并核对安装包…",
                update_state_installing: "正在替换安装目录里的文件…",
                update_state_installed: "已装好,重启后生效",
                update_badge: "新版本:",
                update_error_unreachable: "连不上发布服务器",
                update_error_rate_limited: "发布服务器限制了访问频率,请稍后再试",
                update_error_no_release: "还没有发布任何版本",
                update_error_rejected: "发布服务器拒绝了请求",
                update_error_malformed: "发布服务器的回复无法解析",
                update_error_no_package: "这个版本没有本程序的安装包",
                update_error_too_large: "安装包超过了允许的大小",
                update_error_storage: "无法写入",
                update_error_bad_archive: "安装包已损坏",
                update_error_mismatch: "安装包与清单不符",
                update_error_read_only: "安装目录不可写",
                update_error_half_applied: "更新在中途停止",
                update_half_program_restored: "主程序已恢复为旧版",
                update_half_program_lost: "主程序未能恢复",
                update_half_already_new: "已换成新版的文件",
                role_target: "目标",
                role_bridge: "中转",
                role_watch_only: "仅观察",
                role_unlisted: "未列入",
                radar_verdict_instant: "可执行",
                radar_verdict_maker: "挂单",
                radar_verdict_probe: "需探测",
                radar_verdict_outlier: "异常",
                freshness_fresh: "新鲜",
                freshness_usable: "偏旧",
                freshness_stale: "过期",
                freshness_archived: "归档",
            }
        },
    }
}

/// The word for a page that is still loading.
pub fn loading_label(language: UiLanguage) -> (label: &'static str)
    ensures
        language == UiLanguage::English ==> label@ == "reading the book…"@,
        language == UiLanguage::Chinese ==> label@ == "正在读取盘口…"@,
{
    match language {
        UiLanguage::English => "reading the book…",
        UiLanguage::Chinese => "正在读取盘口…",
    }
}

} // verus!
