use vstd::prelude::*;

verus! {

/// How a guild mutes its members.
#[derive(Clone, Copy, Debug, PartialEq, Eq, Structural)]
pub enum MuteType {
    Timeout,
    Role,
}

/// The configuration of one guild.
#[derive(Debug)]
pub struct WorkspaceConfig {
    pub workspace_id: u64,
    pub prefix: String,
    pub owner_id: u64,
    pub mute_type: MuteType,
    pub mute_role_id: u64,
}

/// The mathematical value of a guild's configuration.
pub ghost struct ConfigModel {
    pub workspace_id: u64,
    pub prefix: Seq<char>,
    pub owner_id: u64,
    pub mute_type: MuteType,
    pub mute_role_id: u64,
}

impl View for WorkspaceConfig {
    type V = ConfigModel;

    open spec fn view(&self) -> ConfigModel {
        ConfigModel {
            workspace_id: self.workspace_id,
            prefix: self.prefix@,
            owner_id: self.owner_id,
            mute_type: self.mute_type,
            mute_role_id: self.mute_role_id,
        }
    }
}

/// The prefix a guild starts with.
pub open spec fn default_prefix() -> Seq<char> {
    seq!['-']
}

/// The configuration a guild gets when it is first seen.
pub open spec fn default_model(workspace_id: u64, owner_id: u64) -> ConfigModel {
    ConfigModel {
        workspace_id,
        prefix: default_prefix(),
        owner_id,
        mute_type: MuteType::Timeout,
        mute_role_id: 0,
    }
}

/// The characters with Unicode's White_Space property.
pub open spec fn is_whitespace(c: char) -> bool {
    ('\u{9}' <= c && c <= '\u{d}') || c == ' ' || c == '\u{85}' || c == '\u{a0}' || c == '\u{1680}'
        || ('\u{2000}' <= c && c <= '\u{200a}') || c == '\u{2028}' || c == '\u{2029}' || c
        == '\u{202f}' || c == '\u{205f}' || c == '\u{3000}'
}

pub open spec fn contains_whitespace(s: Seq<char>) -> bool {
    exists|i: int| 0 <= i < s.len() && is_whitespace(#[trigger] s[i])
}

/// A prefix is valid when it is non-empty and holds no whitespace.
pub open spec fn valid_prefix(s: Seq<char>) -> bool {
    s.len() > 0 && !contains_whitespace(s)
}

/// `s` without its leading whitespace.
pub open spec fn trim_start(s: Seq<char>) -> Seq<char>
    decreases s.len(),
{
    if s.len() > 0 && is_whitespace(s[0]) {
        trim_start(s.drop_first())
    } else {
        s
    }
}

/// `s` without its trailing whitespace.
pub open spec fn trim_end(s: Seq<char>) -> Seq<char>
    decreases s.len(),
{
    if s.len() > 0 && is_whitespace(s.last()) {
        trim_end(s.drop_last())
    } else {
        s
    }
}

/// `s` without leading or trailing whitespace, as `str::trim` gives it.
pub open spec fn trim(s: Seq<char>) -> Seq<char> {
    trim_end(trim_start(s))
}

/// Whether `c` is whitespace, as `char::is_whitespace` decides it.
pub fn char_is_whitespace(c: char) -> (r: bool)
    ensures
        r == is_whitespace(c),
{
    ('\u{9}' <= c && c <= '\u{d}') || c == ' ' || c == '\u{85}' || c == '\u{a0}' || c == '\u{1680}'
        || ('\u{2000}' <= c && c <= '\u{200a}') || c == '\u{2028}' || c == '\u{2029}' || c
        == '\u{202f}' || c == '\u{205f}' || c == '\u{3000}'
}

/// Whether `s` holds a whitespace character.
pub fn has_whitespace(s: &str) -> (r: bool)
    ensures
        r == contains_whitespace(s@),
{
    let n = s.unicode_len();
    let mut i: usize = 0;
    while i < n
        invariant
            n == s@.len(),
            i <= n,
            forall|j: int| 0 <= j < i ==> !is_whitespace(#[trigger] s@[j]),
        decreases n - i,
    {
        if char_is_whitespace(s.get_char(i)) {
            return true;
        }
        i = i + 1;
    }
    false
}

/// Whether `s` may be used as a prefix.
pub fn is_valid_prefix(s: &str) -> (r: bool)
    ensures
        r == valid_prefix(s@),
{
    s.unicode_len() > 0 && !has_whitespace(s)
}

/// `s` with the whitespace at both ends taken off.
pub fn trimmed(s: &str) -> (r: &str)
    ensures
        r@ == trim(s@),
{
    let n = s.unicode_len();
    let mut i: usize = 0;
    proof {
        assert(s@.subrange(0, n as int) =~= s@);
    }
    while i < n && char_is_whitespace(s.get_char(i))
        invariant
            n == s@.len(),
            i <= n,
            trim_start(s@.subrange(i as int, n as int)) == trim_start(s@),
        decreases n - i,
    {
        proof {
            assert(s@.subrange(i as int, n as int).drop_first() =~= s@.subrange(
                i + 1,
                n as int,
            ));
        }
        i = i + 1;
    }
    proof {
        assert(trim_start(s@.subrange(i as int, n as int)) == s@.subrange(i as int, n as int));
    }
    let mut j: usize = n;
    while j > i && char_is_whitespace(s.get_char(j - 1))
        invariant
            n == s@.len(),
            i <= j <= n,
            trim_end(s@.subrange(i as int, j as int)) == trim(s@),
        decreases j,
    {
        proof {
            assert(s@.subrange(i as int, j as int).drop_last() =~= s@.subrange(
                i as int,
                j - 1,
            ));
        }
        j = j - 1;
    }
    s.substring_char(i, j)
}

impl WorkspaceConfig {
    /// The configuration of a guild that was just joined.
    pub fn defaults(workspace_id: u64, owner_id: u64) -> (r: WorkspaceConfig)
        ensures
            r@ == default_model(workspace_id, owner_id),
    {
        let prefix = String::from_str("-");
        proof {
            reveal_strlit("-");
            assert(prefix@ =~= default_prefix());
        }
        WorkspaceConfig {
            workspace_id,
            prefix,
            owner_id,
            mute_type: MuteType::Timeout,
            mute_role_id: 0,
        }
    }

    /// A copy of this configuration.
    pub fn duplicate(&self) -> (r: WorkspaceConfig)
        ensures
            r@ == self@,
    {
        WorkspaceConfig {
            workspace_id: self.workspace_id,
            prefix: self.prefix.clone(),
            owner_id: self.owner_id,
            mute_type: self.mute_type,
            mute_role_id: self.mute_role_id,
        }
    }
}

} // verus!
