//! The closed catalog of actions that the helper may run.

use crate::text::{copy_texts, owned_texts};
use vstd::hash_map::StringHashMap;
use vstd::prelude::*;

verus! {

/// One allowlisted action: what it runs, and how it is undone.
#[derive(Debug, PartialEq, Eq)]
pub struct ActionDefinition {
    pub id: String,
    pub title: String,
    pub os: String,
    pub commands: Vec<String>,
    pub rollback_commands: Vec<String>,
    pub reversible: bool,
    pub estimated_time: String,
    pub requirements: Vec<String>,
    pub creates_backup: bool,
}

/// The mathematical value of an [`ActionDefinition`].
pub struct ActionView {
    pub id: Seq<char>,
    pub title: Seq<char>,
    pub os: Seq<char>,
    pub commands: Seq<Seq<char>>,
    pub rollback_commands: Seq<Seq<char>>,
    pub reversible: bool,
    pub estimated_time: Seq<char>,
    pub requirements: Seq<Seq<char>>,
    pub creates_backup: bool,
}

impl ActionView {
    /// A reversible action that claims to create a backup names the commands
    /// that restore it.
    pub open spec fn well_formed(self) -> bool {
        self.reversible && self.creates_backup ==> self.rollback_commands.len() > 0
    }

    /// Whether the action can be undone at all.
    pub open spec fn can_roll_back(self) -> bool {
        self.reversible && self.rollback_commands.len() > 0
    }
}

impl DeepView for ActionDefinition {
    type V = ActionView;

    open spec fn deep_view(&self) -> ActionView {
        self@
    }
}

impl View for ActionDefinition {
    type V = ActionView;

    open spec fn view(&self) -> ActionView {
        ActionView {
            id: self.id@,
            title: self.title@,
            os: self.os@,
            commands: self.commands.deep_view(),
            rollback_commands: self.rollback_commands.deep_view(),
            reversible: self.reversible,
            estimated_time: self.estimated_time@,
            requirements: self.requirements.deep_view(),
            creates_backup: self.creates_backup,
        }
    }
}

impl Clone for ActionDefinition {
    fn clone(&self) -> (copy: Self)
        ensures
            copy@ == self@,
    {
        ActionDefinition {
            id: self.id.clone(),
            title: self.title.clone(),
            os: self.os.clone(),
            commands: copy_texts(&self.commands),
            rollback_commands: copy_texts(&self.rollback_commands),
            reversible: self.reversible,
            estimated_time: self.estimated_time.clone(),
            requirements: copy_texts(&self.requirements),
            creates_backup: self.creates_backup,
        }
    }
}

impl ActionDefinition {
    /// A reversible action without rollback commands, which takes about ten
    /// seconds and needs administrator privileges.
    pub fn new(id: &str, title: &str, os: &str, commands: Vec<&str>) -> (action: Self)
        ensures
            action@ == (ActionView {
                id: id@,
                title: title@,
                os: os@,
                commands: commands.deep_view(),
                rollback_commands: Seq::empty(),
                reversible: true,
                estimated_time: "10 seconds"@,
                requirements: seq!["Administrator privileges"@],
                creates_backup: false,
            }),
            action@.well_formed(),
    {
        let mut requirements: Vec<String> = Vec::new();
        requirements.push(String::from_str("Administrator privileges"));
        let action = ActionDefinition {
            id: String::from_str(id),
            title: String::from_str(title),
            os: String::from_str(os),
            commands: owned_texts(&commands),
            rollback_commands: Vec::new(),
            reversible: true,
            estimated_time: String::from_str("10 seconds"),
            requirements,
            creates_backup: false,
        };
        assert(action.requirements.deep_view() =~= seq!["Administrator privileges"@]);
        assert(action.rollback_commands.deep_view() =~= Seq::<Seq<char>>::empty());
        action
    }

    /// The same action with `rollback_commands` as its way back, marked as
    /// creating a backup.
    pub fn with_rollback(self, rollback_commands: Vec<&str>) -> (action: Self)
        ensures
            action@ == (ActionView {
                rollback_commands: rollback_commands.deep_view(),
                creates_backup: true,
                ..self@
            }),
    {
        let mut action = self;
        action.rollback_commands = owned_texts(&rollback_commands);
        action.creates_backup = true;
        action
    }

    /// Tells whether the definition keeps the rule on backups.
    pub fn is_well_formed(&self) -> (r: bool)
        ensures
            r == self@.well_formed(),
    {
        !(self.reversible && self.creates_backup) || self.rollback_commands.len() > 0
    }

    /// Tells whether the action can be undone.
    pub fn can_roll_back(&self) -> (r: bool)
        ensures
            r == self@.can_roll_back(),
    {
        self.reversible && self.rollback_commands.len() > 0
    }
}

/// Why a catalog could not be built.
#[derive(Debug, Clone, PartialEq, Eq)]
pub enum CatalogError {
    /// The definition of that identifier breaks the rule on backups.
    Malformed { action_id: String },
}

/// The mapping that a list of definitions stands for: a later definition
/// replaces an earlier one with the same identifier.
pub open spec fn entries_map(entries: Seq<ActionView>) -> Map<Seq<char>, ActionView>
    decreases entries.len(),
{
    if entries.len() == 0 {
        Map::empty()
    } else {
        entries_map(entries.drop_last()).insert(entries.last().id, entries.last())
    }
}

/// The first definition of `entries` that breaks the rule on backups, if
/// there is one.
pub open spec fn first_malformed(entries: Seq<ActionView>) -> Option<ActionView>
    decreases entries.len(),
{
    if entries.len() == 0 {
        None
    } else {
        match first_malformed(entries.drop_last()) {
            Some(action) => Some(action),
            None => if entries.last().well_formed() {
                None
            } else {
                Some(entries.last())
            },
        }
    }
}

/// A definition that breaks the rule on backups within a prefix of a list is
/// the first to do so in the whole list, where none came before it.
pub proof fn lemma_first_malformed_stays(entries: Seq<ActionView>, k: int)
    requires
        0 < k <= entries.len(),
        first_malformed(entries.take(k - 1)) is None,
        !entries[k - 1].well_formed(),
    ensures
        first_malformed(entries) == Some(entries[k - 1]),
    decreases entries.len(),
{
    if k == entries.len() {
        assert(entries.drop_last() =~= entries.take(k - 1));
    } else {
        let head = entries.drop_last();
        assert(head.take(k - 1) =~= entries.take(k - 1));
        lemma_first_malformed_stays(head, k);
    }
}

/// The allowlist: a mapping from identifier to definition that is built once
/// and can only be read afterwards.
pub struct Catalog {
    actions: StringHashMap<ActionDefinition>,
}

impl View for Catalog {
    type V = Map<Seq<char>, ActionView>;

    closed spec fn view(&self) -> Map<Seq<char>, ActionView> {
        self.actions@.map_values(|action: ActionDefinition| action@)
    }
}

impl Catalog {
    /// The catalog holds finitely many definitions, each filed under its
    /// own identifier, and each keeps the rule on backups.
    pub closed spec fn well_formed(&self) -> bool {
        &&& self.actions@.dom().finite()
        &&& forall|id: Seq<char>| #[trigger]
            self.actions@.dom().contains(id) ==> self.actions@[id]@.well_formed()
                && self.actions@[id]@.id == id
    }

    /// Every definition of a well-formed catalog keeps the rule on backups
    /// and is filed under its own identifier, and the catalog is finite.
    pub proof fn lemma_definitions_well_formed(&self, id: Seq<char>)
        requires
            self.well_formed(),
            self@.dom().contains(id),
        ensures
            self@[id].well_formed(),
            self@[id].id == id,
            self@.dom().finite(),
    {
        assert(self.actions@.dom().contains(id));
        assert(self@.dom() =~= self.actions@.dom());
    }

    /// A catalog without any action.
    pub fn new() -> (catalog: Self)
        ensures
            catalog@ == Map::<Seq<char>, ActionView>::empty(),
            catalog.well_formed(),
    {
        let catalog = Catalog { actions: StringHashMap::new() };
        assert(catalog@ =~= Map::<Seq<char>, ActionView>::empty());
        catalog
    }

    /// Builds the catalog of `definitions`.  Where two of them share an
    /// identifier the later one stands.  A definition that breaks the rule on
    /// backups stops the build, and the first such is named.
    pub fn from_definitions(definitions: Vec<ActionDefinition>) -> (r: Result<Catalog, CatalogError>)
        ensures
            match r {
                Ok(catalog) => {
                    &&& first_malformed(definitions.deep_view()) is None
                    &&& catalog.well_formed()
                    &&& catalog@ == entries_map(definitions.deep_view())
                },
                Err(CatalogError::Malformed { action_id }) => {
                    &&& first_malformed(definitions.deep_view()) matches Some(action)
                    &&& action_id@ == action.id
                },
            },
    {
        let mut catalog = Catalog::new();
        let mut i: usize = 0;
        assert(definitions.deep_view().take(0) =~= Seq::<ActionView>::empty());
        while i < definitions.len()
            invariant
                i <= definitions.len(),
                catalog.well_formed(),
                first_malformed(definitions.deep_view().take(i as int)) is None,
                catalog@ == entries_map(definitions.deep_view().take(i as int)),
            decreases definitions.len() - i,
        {
            let ghost before = definitions.deep_view().take(i as int);
            let ghost after = definitions.deep_view().take(i + 1);
            proof {
                assert(after.drop_last() =~= before);
                assert(after.last() == definitions[i as int]@);
            }
            let action = definitions[i].clone();
            if !action.is_well_formed() {
                proof {
                    lemma_first_malformed_stays(definitions.deep_view(), i + 1);
                }
                return Err(CatalogError::Malformed { action_id: action.id });
            }
            catalog.insert(action);
            i = i + 1;
        }
        assert(definitions.deep_view().take(definitions.len() as int) =~= definitions.deep_view());
        Ok(catalog)
    }

    /// The number of actions.
    pub fn len(&self) -> (n: usize)
        requires
            self.well_formed(),
        ensures
            self@.dom().finite(),
            n == self@.dom().len(),
    {
        proof {
            assert(self@.dom() =~= self.actions@.dom());
        }
        self.actions.len()
    }

    /// The definition filed under `id`, if there is one.
    pub fn get(&self, id: &str) -> (found: Option<&ActionDefinition>)
        requires
            self.well_formed(),
        ensures
            found is Some <==> self@.dom().contains(id@),
            found matches Some(action) ==> action@ == self@[id@] && action@.id == id@
                && action@.well_formed(),
    {
        proof {
            assert(self@.dom() =~= self.actions@.dom());
        }
        self.actions.get(id)
    }

    /// Tells whether `id` names an action of the catalog.
    pub fn contains(&self, id: &str) -> (r: bool)
        requires
            self.well_formed(),
        ensures
            r == self@.dom().contains(id@),
    {
        proof {
            assert(self@.dom() =~= self.actions@.dom());
        }
        self.actions.contains_key(id)
    }

    fn insert(&mut self, action: ActionDefinition)
        requires
            old(self).well_formed(),
            action@.well_formed(),
        ensures
            final(self).well_formed(),
            final(self)@ == old(self)@.insert(action@.id, action@),
    {
        let key = action.id.clone();
        self.actions.insert(key, action);
        assert(self@ =~= old(self)@.insert(action@.id, action@));
    }
}

} // verus!
