use vstd::prelude::*;
use crate::components::Text;
use crate::error::UiError;
use crate::store::World;
use crate::ui::{spec_in_rect, MouseData};

verus! {

/// One named integer setting.
#[derive(Clone, Debug, PartialEq)]
pub struct SettingEntry {
    pub name: String,
    pub value: i32,
}

/// The mathematical content of a settings list: the partial map from
/// setting names to values, later entries winning.
pub open spec fn entries_map(s: Seq<SettingEntry>) -> Map<Seq<char>, int>
    decreases s.len(),
{
    if s.len() == 0 {
        Map::empty()
    } else {
        entries_map(s.drop_last()).insert(s.last().name@, s.last().value as int)
    }
}

/// No two entries share a name.
pub open spec fn unique_entry_names(s: Seq<SettingEntry>) -> bool {
    forall|i: int, j: int| 0 <= i < j < s.len() ==> s[i].name@ != s[j].name@
}

/// A name is a key of the entries map exactly when some entry carries it.
proof fn lemma_entries_map_contains(s: Seq<SettingEntry>, k: Seq<char>)
    ensures
        entries_map(s).contains_key(k) <==> exists|i: int| 0 <= i < s.len() && s[i].name@ == k,
    decreases s.len(),
{
    if s.len() > 0 {
        lemma_entries_map_contains(s.drop_last(), k);
        if s.last().name@ == k {
            assert(s[s.len() - 1].name@ == k);
        } else if entries_map(s).contains_key(k) {
            let i = choose|i: int| 0 <= i < s.drop_last().len() && s.drop_last()[i].name@ == k;
            assert(s[i].name@ == k);
        } else {
            assert forall|i: int| 0 <= i < s.len() implies s[i].name@ != k by {
                if i < s.len() - 1 {
                    assert(s.drop_last()[i] == s[i]);
                }
            }
        }
    }
}

/// With unique names, the entry carrying a name gives the map's value at it.
proof fn lemma_entries_map_at(s: Seq<SettingEntry>, i: int)
    requires
        unique_entry_names(s),
        0 <= i < s.len(),
    ensures
        entries_map(s).contains_key(s[i].name@),
        entries_map(s)[s[i].name@] == s[i].value as int,
    decreases s.len(),
{
    if i == s.len() - 1 {
    } else {
        assert(s.drop_last()[i] == s[i]);
        lemma_entries_map_at(s.drop_last(), i);
        assert(s.last().name@ != s[i].name@);
    }
}

/// Replacing the entry that carries a name updates the map at that name.
proof fn lemma_entries_map_update(s: Seq<SettingEntry>, i: int, e: SettingEntry)
    requires
        unique_entry_names(s),
        0 <= i < s.len(),
        s[i].name@ == e.name@,
    ensures
        entries_map(s.update(i, e)) =~= entries_map(s).insert(e.name@, e.value as int),
    decreases s.len(),
{
    if i == s.len() - 1 {
        assert(s.update(i, e).drop_last() =~= s.drop_last());
        assert(s.update(i, e).last() == e);
    } else {
        assert(s.update(i, e).drop_last() =~= s.drop_last().update(i, e));
        assert(s.drop_last()[i] == s[i]);
        lemma_entries_map_update(s.drop_last(), i, e);
        assert(s.update(i, e).last() == s.last());
        assert(s.last().name@ != e.name@);
    }
}

/// Appending an entry updates the map at the new name.
proof fn lemma_entries_map_push(s: Seq<SettingEntry>, e: SettingEntry)
    ensures
        entries_map(s.push(e)) =~= entries_map(s).insert(e.name@, e.value as int),
{
    assert(s.push(e).drop_last() =~= s);
    assert(s.push(e).last() == e);
}

/// The shared settings store: named integer values, plus a dirty flag that
/// tells dependent systems a value changed since they last reconciled.
pub struct Settings {
    pub values_changed: bool,
    pub values: Vec<SettingEntry>,
}

impl Settings {
    /// The store as a map from setting names to values.
    pub open spec fn map_view(&self) -> Map<Seq<char>, int> {
        entries_map(self.values@)
    }

    /// Well-formedness: no name occurs twice.
    pub open spec fn wf(&self) -> bool {
        unique_entry_names(self.values@)
    }

    /// Runtime check of well-formedness, for callers that assembled a store
    /// from unchecked data.
    pub fn wf_check(&self) -> (r: bool)
        ensures
            r == self.wf(),
    {
        let n = self.values.len();
        for i in 0..n
            invariant
                n == self.values@.len(),
                forall|p: int, q: int| 0 <= p < q < i ==> self.values@[p].name@ != self.values@[q].name@,
                forall|p: int, q: int|
                    0 <= p < i && p < q < n ==> self.values@[p].name@ != self.values@[q].name@,
        {
            let mut j = i + 1;
            while j < n
                invariant
                    n == self.values@.len(),
                    i < j <= n,
                    forall|q: int| i < q < j ==> self.values@[i as int].name@ != self.values@[q].name@,
                decreases n - j,
            {
                if self.values[i].name == self.values[j].name {
                    return false;
                }
                j += 1;
            }
        }
        true
    }

    /// An empty store, already marked dirty so a first reconciliation runs.
    pub fn new() -> (s: Settings)
        ensures
            s.wf(),
            s.map_view() == Map::<Seq<char>, int>::empty(),
            s.values_changed,
    {
        Settings { values_changed: true, values: Vec::new() }
    }

    /// The current value of a named setting, if the store holds one.
    pub fn get(&self, name: String) -> (r: Option<&i32>)
        requires
            self.wf(),
        ensures
            match r {
                Some(v) => self.map_view().contains_key(name@) && *v as int
                    == self.map_view()[name@],
                None => !self.map_view().contains_key(name@),
            },
    {
        let n = self.values.len();
        for i in 0..n
            invariant
                self.wf(),
                n == self.values@.len(),
                forall|j: int| 0 <= j < i ==> self.values@[j].name@ != name@,
        {
            if self.values[i].name == name {
                proof {
                    lemma_entries_map_at(self.values@, i as int);
                }
                return Some(&self.values[i].value);
            }
        }
        proof {
            lemma_entries_map_contains(self.values@, name@);
        }
        None
    }

    /// Inserts or replaces a value without touching the dirty flag.
    fn insert_value(&mut self, name: String, value: i32)
        requires
            old(self).wf(),
        ensures
            final(self).wf(),
            final(self).map_view() == old(self).map_view().insert(name@, value as int),
            final(self).values_changed == old(self).values_changed,
    {
        let n = self.values.len();
        for i in 0..n
            invariant
                self.wf(),
                n == self.values@.len(),
                *self == *old(self),
                forall|j: int| 0 <= j < i ==> self.values@[j].name@ != name@,
        {
            if self.values[i].name == name {
                proof {
                    lemma_entries_map_update(
                        self.values@,
                        i as int,
                        SettingEntry { name, value },
                    );
                }
                self.values[i] = SettingEntry { name, value };
                return ;
            }
        }
        proof {
            lemma_entries_map_push(self.values@, SettingEntry { name, value });
        }
        self.values.push(SettingEntry { name, value });
    }

    /// Writes a named setting and marks the store dirty.
    pub fn write(&mut self, name: String, value: i32)
        requires
            old(self).wf(),
        ensures
            final(self).wf(),
            final(self).map_view() == old(self).map_view().insert(name@, value as int),
            final(self).values_changed,
    {
        self.values_changed = true;
        self.insert_value(name, value);
    }
}

impl Default for Settings {
    /// The settings shared by default: windowed mode at the first listed
    /// resolution, marked dirty so they are applied on the first pass.
    fn default() -> (s: Settings)
        ensures
            s.wf(),
            s.values_changed,
            s.map_view() == Map::<Seq<char>, int>::empty().insert(
                "resolution"@,
                0int,
            ).insert("fullscreen"@, 0int),
    {
        let mut v: Vec<SettingEntry> = Vec::new();
        let e1 = SettingEntry { name: "resolution".to_owned(), value: 0 };
        proof {
            lemma_entries_map_push(v@, e1);
        }
        v.push(e1);
        let e2 = SettingEntry { name: "fullscreen".to_owned(), value: 0 };
        proof {
            lemma_entries_map_push(v@, e2);
        }
        v.push(e2);
        proof {
            reveal_strlit("resolution");
            reveal_strlit("fullscreen");
            assert("resolution"@ != "fullscreen"@) by {
                assert("resolution"@[0] == 'r');
                assert("fullscreen"@[0] == 'f');
            }
        }
        Settings { values_changed: true, values: v }
    }
}

/// One value-to-label association in a setting's metadata.
#[derive(Clone, Debug, PartialEq)]
pub struct LabelEntry {
    pub value: i32,
    pub label: String,
}

/// The human-readable labels of one named setting.
#[derive(Clone, Debug, PartialEq)]
pub struct NameTable {
    pub name: String,
    pub labels: Vec<LabelEntry>,
}

/// The mathematical content of a label list: the partial map from values to
/// labels, later entries winning.
pub open spec fn labels_map(s: Seq<LabelEntry>) -> Map<int, String>
    decreases s.len(),
{
    if s.len() == 0 {
        Map::empty()
    } else {
        labels_map(s.drop_last()).insert(s.last().value as int, s.last().label)
    }
}

/// No two label entries share a value.
pub open spec fn unique_label_values(s: Seq<LabelEntry>) -> bool {
    forall|i: int, j: int| 0 <= i < j < s.len() ==> s[i].value != s[j].value
}

/// The mathematical content of a metadata list: the partial map from setting
/// names to their label maps, later tables winning.
pub open spec fn names_map(s: Seq<NameTable>) -> Map<Seq<char>, Map<int, String>>
    decreases s.len(),
{
    if s.len() == 0 {
        Map::empty()
    } else {
        names_map(s.drop_last()).insert(s.last().name@, labels_map(s.last().labels@))
    }
}

/// No two tables describe the same setting name.
pub open spec fn unique_table_names(s: Seq<NameTable>) -> bool {
    forall|i: int, j: int| 0 <= i < j < s.len() ==> s[i].name@ != s[j].name@
}

/// A value is a key of the label map exactly when some entry carries it.
proof fn lemma_labels_map_contains(s: Seq<LabelEntry>, k: int)
    ensures
        labels_map(s).contains_key(k) <==> exists|i: int| 0 <= i < s.len() && s[i].value == k,
    decreases s.len(),
{
    if s.len() > 0 {
        lemma_labels_map_contains(s.drop_last(), k);
        if s.last().value == k {
            assert(s[s.len() - 1].value == k);
        } else if labels_map(s).contains_key(k) {
            let i = choose|i: int| 0 <= i < s.drop_last().len() && s.drop_last()[i].value == k;
            assert(s[i].value == k);
        } else {
            assert forall|i: int| 0 <= i < s.len() implies s[i].value != k by {
                if i < s.len() - 1 {
                    assert(s.drop_last()[i] == s[i]);
                }
            }
        }
    }
}

/// With unique values, the entry carrying a value gives the label map at it.
proof fn lemma_labels_map_at(s: Seq<LabelEntry>, i: int)
    requires
        unique_label_values(s),
        0 <= i < s.len(),
    ensures
        labels_map(s).contains_key(s[i].value as int),
        labels_map(s)[s[i].value as int] == s[i].label,
    decreases s.len(),
{
    if i == s.len() - 1 {
    } else {
        assert(s.drop_last()[i] == s[i]);
        lemma_labels_map_at(s.drop_last(), i);
        assert(s.last().value != s[i].value);
    }
}

/// Appending a label entry updates the label map at the new value.
proof fn lemma_labels_map_push(s: Seq<LabelEntry>, e: LabelEntry)
    ensures
        labels_map(s.push(e)) =~= labels_map(s).insert(e.value as int, e.label),
{
    assert(s.push(e).drop_last() =~= s);
    assert(s.push(e).last() == e);
}

/// A name is a key of the metadata map exactly when some table carries it.
proof fn lemma_names_map_contains(s: Seq<NameTable>, k: Seq<char>)
    ensures
        names_map(s).contains_key(k) <==> exists|i: int| 0 <= i < s.len() && s[i].name@ == k,
    decreases s.len(),
{
    if s.len() > 0 {
        lemma_names_map_contains(s.drop_last(), k);
        if s.last().name@ == k {
            assert(s[s.len() - 1].name@ == k);
        } else if names_map(s).contains_key(k) {
            let i = choose|i: int| 0 <= i < s.drop_last().len() && s.drop_last()[i].name@ == k;
            assert(s[i].name@ == k);
        } else {
            assert forall|i: int| 0 <= i < s.len() implies s[i].name@ != k by {
                if i < s.len() - 1 {
                    assert(s.drop_last()[i] == s[i]);
                }
            }
        }
    }
}

/// With unique names, the table carrying a name gives the metadata map at it.
proof fn lemma_names_map_at(s: Seq<NameTable>, i: int)
    requires
        unique_table_names(s),
        0 <= i < s.len(),
    ensures
        names_map(s).contains_key(s[i].name@),
        names_map(s)[s[i].name@] == labels_map(s[i].labels@),
    decreases s.len(),
{
    if i == s.len() - 1 {
    } else {
        assert(s.drop_last()[i] == s[i]);
        lemma_names_map_at(s.drop_last(), i);
        assert(s.last().name@ != s[i].name@);
    }
}

/// Replacing the table that carries a name updates the metadata map there.
pub proof fn lemma_names_map_update(s: Seq<NameTable>, i: int, t: NameTable)
    requires
        unique_table_names(s),
        0 <= i < s.len(),
        s[i].name@ == t.name@,
    ensures
        names_map(s.update(i, t)) =~= names_map(s).insert(t.name@, labels_map(t.labels@)),
    decreases s.len(),
{
    if i == s.len() - 1 {
        assert(s.update(i, t).drop_last() =~= s.drop_last());
        assert(s.update(i, t).last() == t);
    } else {
        assert(s.update(i, t).drop_last() =~= s.drop_last().update(i, t));
        assert(s.drop_last()[i] == s[i]);
        lemma_names_map_update(s.drop_last(), i, t);
        assert(s.update(i, t).last() == s.last());
        assert(s.last().name@ != t.name@);
    }
}

/// Appending a table updates the metadata map at the new name.
pub proof fn lemma_names_map_push(s: Seq<NameTable>, t: NameTable)
    ensures
        names_map(s.push(t)) =~= names_map(s).insert(t.name@, labels_map(t.labels@)),
{
    assert(s.push(t).drop_last() =~= s);
    assert(s.push(t).last() == t);
}

/// A display size in pixels.
#[derive(Clone, Copy, Debug, PartialEq, Eq, Structural)]
pub struct ResolutionPair {
    pub width: u32,
    pub height: u32,
}

/// Settings metadata: the display labels for each named setting's values,
/// the raw resolution strings as loaded, and the parsed resolution sizes.
pub struct SettingsInfo {
    pub names: Vec<NameTable>,
    pub resolutions: Vec<String>,
    pub resolution_values: Vec<ResolutionPair>,
}

impl SettingsInfo {
    /// The metadata as a map from setting names to value-label maps.
    pub open spec fn names_view(&self) -> Map<Seq<char>, Map<int, String>> {
        names_map(self.names@)
    }

    /// Well-formedness: table names are unique and so are the values within
    /// each table.
    pub open spec fn wf(&self) -> bool {
        &&& unique_table_names(self.names@)
        &&& forall|i: int| 0 <= i < self.names@.len() ==> unique_label_values(
            #[trigger] self.names@[i].labels@,
        )
    }

    /// Runtime check of well-formedness, for callers that assembled the
    /// metadata from unchecked data.
    pub fn wf_check(&self) -> (r: bool)
        ensures
            r == self.wf(),
    {
        let n = self.names.len();
        for i in 0..n
            invariant
                n == self.names@.len(),
                forall|p: int, q: int|
                    0 <= p < i && p < q < n ==> self.names@[p].name@ != self.names@[q].name@,
                forall|p: int| 0 <= p < i ==> unique_label_values(#[trigger] self.names@[p].labels@),
        {
            let mut j = i + 1;
            while j < n
                invariant
                    n == self.names@.len(),
                    i < j <= n,
                    forall|q: int| i < q < j ==> self.names@[i as int].name@ != self.names@[q].name@,
                decreases n - j,
            {
                if self.names[i].name == self.names[j].name {
                    return false;
                }
                j += 1;
            }
            let m = self.names[i].labels.len();
            for a in 0..m
                invariant
                    n == self.names@.len(),
                    i < n,
                    m == self.names@[i as int].labels@.len(),
                    forall|p: int, q: int|
                        0 <= p < a && p < q < m ==> self.names@[i as int].labels@[p].value
                            != self.names@[i as int].labels@[q].value,
            {
                let mut b = a + 1;
                while b < m
                    invariant
                        n == self.names@.len(),
                        i < n,
                        m == self.names@[i as int].labels@.len(),
                        a < b <= m,
                        forall|q: int|
                            a < q < b ==> self.names@[i as int].labels@[a as int].value
                                != self.names@[i as int].labels@[q].value,
                    decreases m - b,
                {
                    if self.names[i].labels[a].value == self.names[i].labels[b].value {
                        return false;
                    }
                    b += 1;
                }
            }
        }
        true
    }

    /// Empty metadata.
    pub fn new() -> (s: SettingsInfo)
        ensures
            s.wf(),
            s.names_view() == Map::<Seq<char>, Map<int, String>>::empty(),
            s.resolutions@ == Seq::<String>::empty(),
            s.resolution_values@ == Seq::<ResolutionPair>::empty(),
    {
        SettingsInfo { names: Vec::new(), resolutions: Vec::new(), resolution_values: Vec::new() }
    }

    /// The display label the metadata maps a setting's value to, if any.
    pub fn label_for(&self, name: &String, value: i32) -> (r: Option<&String>)
        requires
            self.wf(),
        ensures
            match r {
                Some(l) => self.names_view().contains_key(name@) && self.names_view()[name@]
                    .contains_key(value as int) && *l == self.names_view()[name@][value as int],
                None => !(self.names_view().contains_key(name@)
                    && self.names_view()[name@].contains_key(value as int)),
            },
    {
        let n = self.names.len();
        for i in 0..n
            invariant
                self.wf(),
                n == self.names@.len(),
                forall|j: int| 0 <= j < i ==> self.names@[j].name@ != name@,
        {
            if self.names[i].name == *name {
                proof {
                    lemma_names_map_at(self.names@, i as int);
                }
                let labels = &self.names[i].labels;
                let m = labels.len();
                for j in 0..m
                    invariant
                        self.wf(),
                        n == self.names@.len(),
                        i < n,
                        labels == &self.names@[i as int].labels,
                        self.names@[i as int].name@ == name@,
                        m == labels@.len(),
                        forall|k: int| 0 <= k < j ==> labels@[k].value != value,
                {
                    if labels[j].value == value {
                        proof {
                            lemma_names_map_at(self.names@, i as int);
                            lemma_labels_map_at(labels@, j as int);
                        }
                        return Some(&labels[j].label);
                    }
                }
                proof {
                    lemma_names_map_at(self.names@, i as int);
                    lemma_labels_map_contains(labels@, value as int);
                }
                return None;
            }
        }
        proof {
            lemma_names_map_contains(self.names@, name@);
        }
        None
    }
}

impl Default for SettingsInfo {
    /// Empty metadata, as loaded before any file fills it.
    fn default() -> (s: SettingsInfo)
        ensures
            s.wf(),
            s.names_view() == Map::<Seq<char>, Map<int, String>>::empty(),
            s.resolutions@ == Seq::<String>::empty(),
            s.resolution_values@ == Seq::<ResolutionPair>::empty(),
    {
        SettingsInfo { names: Vec::new(), resolutions: Vec::new(), resolution_values: Vec::new() }
    }
}

/// The settings map after absorbing the SettingsValue components of the
/// first `n` slots, in slot order.
pub open spec fn synced_map_upto(w: World, m: Map<Seq<char>, int>, n: int) -> Map<Seq<char>, int>
    decreases n,
{
    if n <= 0 {
        m
    } else {
        let pre = synced_map_upto(w, m, n - 1);
        match w.settings_values@[n - 1] {
            Some(sv) => pre.insert(sv.name@, sv.value as int),
            None => pre,
        }
    }
}

impl Settings {
    /// Absorbs every SettingsValue component in the store into the settings,
    /// in slot order, without touching the dirty flag.
    pub fn get_settings(&mut self, w: &World)
        requires
            old(self).wf(),
            w.wf(),
        ensures
            final(self).wf(),
            final(self).map_view() == synced_map_upto(
                *w,
                old(self).map_view(),
                w.n() as int,
            ),
            final(self).values_changed == old(self).values_changed,
    {
        let ghost m0 = self.map_view();
        let n = w.alive.len();
        for i in 0..n
            invariant
                self.wf(),
                w.wf(),
                n == w.n(),
                self.map_view() == synced_map_upto(*w, m0, i as int),
                self.values_changed == old(self).values_changed,
                m0 == old(self).map_view(),
        {
            if w.settings_values[i].is_some() {
                let sv = w.settings_values[i].as_ref().unwrap();
                let name = sv.name.clone();
                let value = sv.value;
                self.insert_value(name, value);
            }
            assert(self.map_view() == synced_map_upto(*w, m0, i + 1));
        }
    }
}

/// The entity at slot `i` is a visible settings button whose rectangle
/// contains the point: it carries Button, SettingsValue, Position, Rectangle
/// and Renderable, is visible, and was hit.
pub open spec fn settings_click_at(w: World, mx: int, my: int, i: int) -> bool {
    &&& w.buttons@[i] is Some
    &&& w.settings_values@[i] is Some
    &&& w.positions@[i] is Some
    &&& w.rectangles@[i] is Some
    &&& w.renderables@[i] is Some
    &&& w.renderables@[i]->0.visible
    &&& spec_in_rect(mx, my, w.positions@[i]->0, w.rectangles@[i]->0)
}

/// The settings map after one settings-write pass over the first `n` slots:
/// every clicked visible settings button writes its (name, value), in slot
/// order.
pub open spec fn written_map_upto(
    w: World,
    m: Map<Seq<char>, int>,
    mx: int,
    my: int,
    n: int,
) -> Map<Seq<char>, int>
    decreases n,
{
    if n <= 0 {
        m
    } else {
        let pre = written_map_upto(w, m, mx, my, n - 1);
        if settings_click_at(w, mx, my, n - 1) {
            let sv = w.settings_values@[n - 1]->0;
            pre.insert(sv.name@, sv.value as int)
        } else {
            pre
        }
    }
}

/// Law of the settings-write pass: a clicked visible settings button's
/// (name, value) is in the map the pass leaves behind, and the value is
/// readable at that name — provided no clicked visible settings button at a
/// later slot writes the same name. With two clicked buttons sharing a name
/// the later slot wins, exactly as the writes land in slot order, so the
/// proviso cannot be dropped.
pub proof fn lemma_click_writes_setting(
    w: World,
    m0: Map<Seq<char>, int>,
    mx: int,
    my: int,
    i: int,
    n: int,
)
    requires
        w.wf(),
        0 <= i < n <= w.n(),
        settings_click_at(w, mx, my, i),
        forall|j: int|
            i < j < n && settings_click_at(w, mx, my, j) ==> (
            #[trigger] w.settings_values@[j])->0.name@ != w.settings_values@[i]->0.name@,
    ensures
        written_map_upto(w, m0, mx, my, n).contains_key(w.settings_values@[i]->0.name@),
        written_map_upto(w, m0, mx, my, n)[w.settings_values@[i]->0.name@]
            == w.settings_values@[i]->0.value as int,
    decreases n,
{
    if n - 1 > i {
        lemma_click_writes_setting(w, m0, mx, my, i, n - 1);
    }
}

/// The settings-write pass: a click on a visible settings button writes the
/// button's value into the shared settings store.
pub struct SettingsButtonUpdate;

impl SettingsButtonUpdate {
    /// On a press frame, writes (name, value) of every clicked visible
    /// settings button into the store, in slot order, marking the store
    /// dirty. On a frame without a press, or when nothing was hit, the store
    /// is untouched.
    pub fn run(w: &World, settings: &mut Settings, mouse: &MouseData)
        requires
            w.wf(),
            old(settings).wf(),
        ensures
            final(settings).wf(),
            !mouse.pressed ==> *final(settings) == *old(settings),
            mouse.pressed ==> final(settings).map_view() == written_map_upto(
                *w,
                old(settings).map_view(),
                mouse.x as int,
                mouse.y as int,
                w.n() as int,
            ),
            mouse.pressed ==> final(settings).values_changed == (old(settings).values_changed
                || exists|i: int|
                0 <= i < w.n() && settings_click_at(*w, mouse.x as int, mouse.y as int, i)),
    {
        if !mouse.pressed {
            return ;
        }
        let ghost m0 = settings.map_view();
        let ghost c0 = settings.values_changed;
        let ghost mx = mouse.x as int;
        let ghost my = mouse.y as int;
        let n = w.alive.len();
        for i in 0..n
            invariant
                w.wf(),
                settings.wf(),
                n == w.n(),
                mx == mouse.x as int,
                my == mouse.y as int,
                m0 == old(settings).map_view(),
                c0 == old(settings).values_changed,
                settings.map_view() == written_map_upto(*w, m0, mx, my, i as int),
                settings.values_changed == (c0 || exists|k: int|
                    0 <= k < i && settings_click_at(*w, mx, my, k)),
        {
            if w.buttons[i].is_some() && w.settings_values[i].is_some() && w.positions[i].is_some()
                && w.rectangles[i].is_some() && w.renderables[i].is_some() {
                let p = w.positions[i].unwrap();
                let r = w.rectangles[i].unwrap();
                if w.renderables[i].unwrap().visible && crate::ui::point_in_rect(
                    mouse.x,
                    mouse.y,
                    &p,
                    &r,
                ) {
                    let sv = w.settings_values[i].as_ref().unwrap();
                    let name = sv.name.clone();
                    let value = sv.value;
                    settings.write(name, value);
                    assert(settings_click_at(*w, mx, my, i as int));
                }
            }
            assert(settings.map_view() == written_map_upto(*w, m0, mx, my, i + 1));
        }
    }
}

/// The entity at slot `i` carries the components the display-sync pass joins
/// on: Text and SettingsValueDisplay.
pub open spec fn display_bundle_at(w: World, i: int) -> bool {
    &&& w.texts@[i] is Some
    &&& w.settings_displays@[i] is Some
}

/// The display at slot `i` can be resolved: the settings store holds a value
/// for the named setting and the metadata maps that value to a label.
pub open spec fn display_lookup_ok(w: World, st: Settings, info: SettingsInfo, i: int) -> bool {
    let nm = w.settings_displays@[i]->0.name@;
    &&& st.map_view().contains_key(nm)
    &&& info.names_view().contains_key(nm)
    &&& info.names_view()[nm].contains_key(st.map_view()[nm])
}

/// The text column entry of slot `i` after one display-sync pass: a
/// resolvable display shows the label its setting's current value maps to; a
/// display that cannot be resolved keeps its previous label.
pub open spec fn displayed_text_at(w: World, st: Settings, info: SettingsInfo, i: int) -> Option<
    Text,
> {
    if display_bundle_at(w, i) && display_lookup_ok(w, st, info, i) {
        let nm = w.settings_displays@[i]->0.name@;
        let t = w.texts@[i]->0;
        Some(
            Text {
                text: info.names_view()[nm][st.map_view()[nm]],
                color: t.color,
                visible: t.visible,
                offset: t.offset,
            },
        )
    } else {
        w.texts@[i]
    }
}

/// The diagnostics one display-sync pass reports over the first `n` slots,
/// in slot order: one unknown-setting error per display that cannot be
/// resolved.
pub open spec fn display_errors_upto(
    w: World,
    st: Settings,
    info: SettingsInfo,
    n: int,
) -> Seq<UiError>
    decreases n,
{
    if n <= 0 {
        Seq::empty()
    } else {
        let pre = display_errors_upto(w, st, info, n - 1);
        if display_bundle_at(w, n - 1) && !display_lookup_ok(w, st, info, n - 1) {
            pre.push(UiError::UnknownSettingName { name: w.settings_displays@[n - 1]->0.name })
        } else {
            pre
        }
    }
}

/// The settings display sync pass: label entities mirror the current values
/// of the settings they name.
pub struct UpdateSettingsDisplay;

impl UpdateSettingsDisplay {
    /// For every entity with Text and SettingsValueDisplay, looks the named
    /// setting's current value up in the store and that value's label up in
    /// the metadata, and writes the label into the text. A display whose
    /// name or value cannot be resolved keeps its previous label and is
    /// reported.
    pub fn run(w: &mut World, settings: &Settings, info: &SettingsInfo) -> (errs: Vec<UiError>)
        requires
            old(w).wf(),
            settings.wf(),
            info.wf(),
        ensures
            final(w).wf(),
            final(w).n() == old(w).n(),
            forall|j: int|
                0 <= j < old(w).n() ==> final(w).texts@[j] == displayed_text_at(
                    *old(w),
                    *settings,
                    *info,
                    j,
                ),
            errs@ == display_errors_upto(*old(w), *settings, *info, old(w).n() as int),
            final(w).alive@ == old(w).alive@,
            final(w).generations@ == old(w).generations@,
            final(w).positions@ == old(w).positions@,
            final(w).rectangles@ == old(w).rectangles@,
            final(w).renderables@ == old(w).renderables@,
            final(w).colors@ == old(w).colors@,
            final(w).sprites@ == old(w).sprites@,
            final(w).buttons@ == old(w).buttons@,
            final(w).dropdown_parents@ == old(w).dropdown_parents@,
            final(w).dropdown_buttons@ == old(w).dropdown_buttons@,
            final(w).settings_values@ == old(w).settings_values@,
            final(w).settings_displays@ == old(w).settings_displays@,
            final(w).animations@ == old(w).animations@,
            final(w).menu_buttons@ == old(w).menu_buttons@,
            final(w).menu_related@ == old(w).menu_related@,
            final(w).response_texts@ == old(w).response_texts@,
    {
        let ghost w0 = *w;
        let mut errs: Vec<UiError> = Vec::new();
        let n = w.alive.len();
        for i in 0..n
            invariant
                w.wf(),
                n == w.n(),
                w0.wf(),
                n == w0.n(),
                settings.wf(),
                info.wf(),
                forall|j: int|
                    0 <= j < i ==> w.texts@[j] == displayed_text_at(w0, *settings, *info, j),
                forall|j: int| i <= j < n ==> w.texts@[j] == w0.texts@[j],
                errs@ == display_errors_upto(w0, *settings, *info, i as int),
                w.alive@ == w0.alive@,
                w.generations@ == w0.generations@,
                w.positions@ == w0.positions@,
                w.rectangles@ == w0.rectangles@,
                w.renderables@ == w0.renderables@,
                w.colors@ == w0.colors@,
                w.sprites@ == w0.sprites@,
                w.buttons@ == w0.buttons@,
                w.dropdown_parents@ == w0.dropdown_parents@,
                w.dropdown_buttons@ == w0.dropdown_buttons@,
                w.settings_values@ == w0.settings_values@,
                w.settings_displays@ == w0.settings_displays@,
                w.animations@ == w0.animations@,
                w.menu_buttons@ == w0.menu_buttons@,
                w.menu_related@ == w0.menu_related@,
                w.response_texts@ == w0.response_texts@,
        {
            if w.texts[i].is_some() && w.settings_displays[i].is_some() {
                let nm = w.settings_displays[i].as_ref().unwrap().name.clone();
                let mut resolved: Option<String> = None;
                match settings.get(nm.clone()) {
                    Some(v) => {
                        let value = *v;
                        match info.label_for(&nm, value) {
                            Some(l) => {
                                resolved = Some(l.clone());
                            },
                            None => {},
                        }
                    },
                    None => {},
                }
                match resolved {
                    Some(label) => {
                        let mut t = w.texts[i].take().unwrap();
                        t.text = label;
                        w.texts[i] = Some(t);
                    },
                    None => {
                        errs.push(UiError::UnknownSettingName { name: nm });
                    },
                }
            }
            assert(w.texts@[i as int] == displayed_text_at(w0, *settings, *info, i as int));
            assert(errs@ == display_errors_upto(w0, *settings, *info, i + 1));
        }
        errs
    }
}

/// The first metadata table carrying a name, scanning from the front.
pub open spec fn spec_find_table(s: Seq<NameTable>, k: Seq<char>) -> Option<NameTable>
    decreases s.len(),
{
    if s.len() == 0 {
        None
    } else if s[0].name@ == k {
        Some(s[0])
    } else {
        spec_find_table(s.subrange(1, s.len() as int), k)
    }
}

/// A found table is one of the list's elements.
pub proof fn lemma_find_table_member(s: Seq<NameTable>, k: Seq<char>)
    requires
        spec_find_table(s, k) is Some,
    ensures
        exists|i: int| 0 <= i < s.len() && s[i] == spec_find_table(s, k)->0,
    decreases s.len(),
{
    if s.len() > 0 {
        if s[0].name@ == k {
            assert(s[0] == spec_find_table(s, k)->0);
        } else {
            let rest = s.subrange(1, s.len() as int);
            lemma_find_table_member(rest, k);
            let i = choose|i: int| 0 <= i < rest.len() && rest[i] == spec_find_table(rest, k)->0;
            assert(s[i + 1] == spec_find_table(s, k)->0);
        }
    }
}

impl SettingsInfo {
    /// The metadata table of one named setting, if present.
    pub fn find_table(&self, name: &String) -> (r: Option<&NameTable>)
        ensures
            match r {
                Some(t) => spec_find_table(self.names@, name@) == Some(*t),
                None => spec_find_table(self.names@, name@) is None,
            },
    {
        let n = self.names.len();
        proof {
            assert(self.names@.subrange(0, n as int) =~= self.names@);
        }
        for i in 0..n
            invariant
                n == self.names@.len(),
                spec_find_table(self.names@, name@) == spec_find_table(
                    self.names@.subrange(i as int, n as int),
                    name@,
                ),
                forall|j: int| 0 <= j < i ==> self.names@[j].name@ != name@,
        {
            let ghost rest = self.names@.subrange(i as int, n as int);
            if self.names[i].name == *name {
                proof {
                    assert(rest[0] == self.names@[i as int]);
                }
                return Some(&self.names[i]);
            }
            proof {
                assert(rest[0] == self.names@[i as int]);
                assert(rest.subrange(1, rest.len() as int) =~= self.names@.subrange(
                    i + 1,
                    n as int,
                ));
            }
        }
        proof {
            assert(self.names@.subrange(n as int, n as int) =~= Seq::<NameTable>::empty());
        }
        None
    }
}

} // verus!
