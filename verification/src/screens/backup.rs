//! Backups: what a backup holds, what importing one restores and reports,
//! and the names and scripts the backup screen uses.
use vstd::prelude::*;

use crate::models::category::Category;
use crate::models::holding::Holding;
use crate::models::member::Member;
use crate::models::transaction::Transaction;
use crate::models::wallet::Wallet;
use crate::screens::overview::categories_where;
use crate::screens::pin::PinCheck;
use crate::text::{int_text, push_int};

verus! {

/// The version written into backups.
pub const APP_VERSION: &'static str = "1.0.0";

/// Everything a backup file holds.
#[derive(Clone, Debug, PartialEq)]
pub struct BackupData {
    pub app_version: String,
    pub exported_at: i64,
    pub wallets: Vec<Wallet>,
    pub holdings: Vec<Holding>,
    pub categories: Vec<Category>,
    pub transactions: Vec<Transaction>,
    pub members: Vec<Member>,
    /// The app's settings, as key and value, in key order.
    pub settings: Vec<(String, String)>,
}

/// The report of an import, with the number of records of each kind.
pub open spec fn summary_text(
    wallets: int,
    holdings: int,
    categories: int,
    transactions: int,
    members: int,
    settings: int,
) -> Seq<char> {
    int_text(wallets) + " wallets, "@ + int_text(holdings) + " holdings, "@ + int_text(categories)
        + " categories, "@ + int_text(transactions) + " transactions, "@ + int_text(members)
        + " members, "@ + int_text(settings) + " settings"@
}

fn push_count(s: &mut String, n: usize, label: &str)
    requires
        n <= i64::MAX,
    ensures
        final(s)@ == old(s)@ + int_text(n as int) + label@,
{
    push_int(s, n as i64);
    s.append(label);
}

impl BackupData {
    /// A backup of the given records, exported at `exported_at`, of this
    /// version of the app.
    pub fn new(
        exported_at: i64,
        wallets: Vec<Wallet>,
        holdings: Vec<Holding>,
        categories: Vec<Category>,
        transactions: Vec<Transaction>,
        members: Vec<Member>,
        settings: Vec<(String, String)>,
    ) -> (r: BackupData)
        ensures
            r.app_version@ == "1.0.0"@,
            r.exported_at == exported_at,
            r.wallets == wallets,
            r.holdings == holdings,
            r.categories == categories,
            r.transactions == transactions,
            r.members == members,
            r.settings == settings,
    {
        proof {
            reveal_strlit("1.0.0");
        }
        BackupData {
            app_version: APP_VERSION.to_owned(),
            exported_at,
            wallets,
            holdings,
            categories,
            transactions,
            members,
            settings,
        }
    }

    /// The categories importing the backup restores: the user's own, in
    /// order; system categories are kept as seeded.
    pub fn restorable_categories(&self) -> (r: Vec<Category>)
        ensures
            r@ == categories_where(self.categories@, false),
    {
        let mut out: Vec<Category> = Vec::new();
        let mut i: usize = 0;
        while i < self.categories.len()
            invariant
                i <= self.categories.len(),
                out@ == categories_where(self.categories@.subrange(0, i as int), false),
            decreases self.categories.len() - i,
        {
            let ghost t = self.categories@.subrange(0, i + 1);
            assert(t.drop_last() =~= self.categories@.subrange(0, i as int));
            assert(t.last() == self.categories@[i as int]);
            if !self.categories[i].is_system {
                out.push(self.categories[i].duplicate());
            }
            i = i + 1;
        }
        assert(self.categories@.subrange(0, self.categories.len() as int) =~= self.categories@);
        out
    }

    /// The report shown after importing the backup: how many wallets,
    /// holdings, categories, transactions, members and settings it held.
    pub fn import_summary(&self) -> (r: String)
        requires
            self.wallets.len() <= i64::MAX,
            self.holdings.len() <= i64::MAX,
            self.categories.len() <= i64::MAX,
            self.transactions.len() <= i64::MAX,
            self.members.len() <= i64::MAX,
            self.settings.len() <= i64::MAX,
        ensures
            r@ == summary_text(
                self.wallets.len() as int,
                self.holdings.len() as int,
                self.categories.len() as int,
                self.transactions.len() as int,
                self.members.len() as int,
                self.settings.len() as int,
            ),
    {
        let mut s = String::new();
        push_count(&mut s, self.wallets.len(), " wallets, ");
        push_count(&mut s, self.holdings.len(), " holdings, ");
        push_count(&mut s, self.categories.len(), " categories, ");
        push_count(&mut s, self.transactions.len(), " transactions, ");
        push_count(&mut s, self.members.len(), " members, ");
        push_count(&mut s, self.settings.len(), " settings");
        assert(s@ =~= summary_text(
            self.wallets.len() as int,
            self.holdings.len() as int,
            self.categories.len() as int,
            self.transactions.len() as int,
            self.members.len() as int,
            self.settings.len() as int,
        ));
        s
    }
}

/// What the backup screen is asked to do once the PIN is confirmed.
#[derive(Clone, Debug, PartialEq, Eq)]
pub enum PendingAction {
    /// Export a backup.
    Export,
    /// Import the saved backup file at this path.
    ImportFromFile(String),
    /// Import a file the user picks.
    ImportFileFromPicker,
}

/// What happens on the backup screen.
#[derive(Clone, Debug, PartialEq, Eq)]
pub enum BackupEvent {
    /// The user asks for an action, which waits for the PIN.
    Request(PendingAction),
    /// The PIN dialog answered.
    PinChecked(PinCheck),
    /// The user closed the PIN dialog.
    Cancel,
}

/// What the screen does next.
#[derive(Clone, Debug, PartialEq, Eq)]
pub enum BackupStep {
    /// Show the PIN dialog.
    AskPin,
    /// Close the dialog and carry out the action.
    Run(PendingAction),
    /// Nothing to do.
    Nothing,
}

/// The backup screen's PIN gate: from the action waiting for the PIN and an
/// event, the action that waits afterwards and what to do. An action runs
/// only once the PIN is accepted, and then no longer waits; a wrong PIN, or a
/// failed check, keeps it waiting.
pub fn backup_step(pending: Option<PendingAction>, event: BackupEvent) -> (r: (
    Option<PendingAction>,
    BackupStep,
))
    ensures
        match event {
            BackupEvent::Request(a) => r == (Some(a), BackupStep::AskPin),
            BackupEvent::Cancel => r == (None::<PendingAction>, BackupStep::Nothing),
            BackupEvent::PinChecked(PinCheck::Accepted) => match pending {
                Some(a) => r == (None::<PendingAction>, BackupStep::Run(a)),
                None => r == (None::<PendingAction>, BackupStep::Nothing),
            },
            BackupEvent::PinChecked(_) => r == (pending, BackupStep::Nothing),
        },
{
    match event {
        BackupEvent::Request(a) => (Some(a), BackupStep::AskPin),
        BackupEvent::Cancel => (None, BackupStep::Nothing),
        BackupEvent::PinChecked(PinCheck::Accepted) => match pending {
            Some(a) => (None, BackupStep::Run(a)),
            None => (None, BackupStep::Nothing),
        },
        BackupEvent::PinChecked(_) => (pending, BackupStep::Nothing),
    }
}

/// The name under which an imported file is saved when its own name is
/// taken: `<stem>_<counter>.<ext>`.
pub fn numbered_name(stem: &str, counter: u64, ext: &str) -> (r: String)
    ensures
        r@ == stem@ + "_"@ + crate::text::nat_digits(counter as nat) + "."@ + ext@,
{
    let mut s = stem.to_owned();
    s.append("_");
    crate::text::push_digits(&mut s, counter);
    s.append(".");
    s.append(ext);
    s
}

/// `s` with every backslash doubled and every single quote escaped by a
/// backslash, as it is placed between single quotes in a script.
pub open spec fn js_escaped(s: Seq<char>) -> Seq<char>
    decreases s.len(),
{
    if s.len() == 0 {
        s
    } else {
        let c = s.last();
        js_escaped(s.drop_last()) + if c == '\\' {
            seq!['\\', '\\']
        } else if c == '\'' {
            seq!['\\', '\'']
        } else {
            seq![c]
        }
    }
}

/// Escapes `s` for a single-quoted script string: `\` becomes `\\` and `'`
/// becomes `\'`.
pub fn escape_js(s: &str) -> (r: String)
    ensures
        r@ == js_escaped(s@),
{
    let n = s.unicode_len();
    let mut out = String::new();
    let mut i: usize = 0;
    while i < n
        invariant
            n == s@.len(),
            i <= n,
            out@ == js_escaped(s@.subrange(0, i as int)),
        decreases n - i,
    {
        let c = s.get_char(i);
        assert(s@.subrange(0, i + 1).drop_last() =~= s@.subrange(0, i as int));
        assert(s@.subrange(0, i + 1).last() == c);
        if c == '\\' {
            proof {
                reveal_strlit("\\\\");
            }
            assert("\\\\"@ =~= seq!['\\', '\\']);
            out.append("\\\\");
        } else if c == '\'' {
            proof {
                reveal_strlit("\\'");
            }
            assert("\\'"@ =~= seq!['\\', '\'']);
            out.append("\\'");
        } else {
            let one = s.substring_char(i, i + 1);
            assert(one@ =~= seq![c]);
            out.append(one);
        }
        i = i + 1;
        assert(out@ =~= js_escaped(s@.subrange(0, i as int)));
    }
    assert(s@.subrange(0, n as int) =~= s@);
    out
}

} // verus!
