use vstd::prelude::*;
use crate::settings::{
    labels_map, unique_label_values, LabelEntry, NameTable, ResolutionPair, Settings, SettingsInfo,
};

verus! {

/// An ASCII decimal digit.
pub open spec fn is_ascii_digit(c: char) -> bool {
    '0' <= c && c <= '9'
}

/// The numeric value of one digit.
pub open spec fn digit_val(c: char) -> int {
    c as int - '0' as int
}

/// Every character is a digit.
pub open spec fn all_digits(s: Seq<char>) -> bool {
    forall|i: int| 0 <= i < s.len() ==> is_ascii_digit(#[trigger] s[i])
}

/// The value of a digit string read in base ten.
pub open spec fn digits_val(s: Seq<char>) -> int
    decreases s.len(),
{
    if s.len() == 0 {
        0
    } else {
        digits_val(s.drop_last()) * 10 + digit_val(s.last())
    }
}

/// What parsing an unsigned decimal yields: the value, if the string is a
/// nonempty digit string whose value fits.
pub open spec fn spec_parse_u32(s: Seq<char>) -> Option<u32> {
    if s.len() > 0 && all_digits(s) && digits_val(s) <= u32::MAX {
        Some(digits_val(s) as u32)
    } else {
        None
    }
}

proof fn lemma_digits_val_nonneg(s: Seq<char>)
    requires
        all_digits(s),
    ensures
        digits_val(s) >= 0,
    decreases s.len(),
{
    if s.len() > 0 {
        assert(all_digits(s.drop_last()));
        lemma_digits_val_nonneg(s.drop_last());
    }
}

/// A digit string's value only grows as more digits are appended.
proof fn lemma_digits_val_mono(s: Seq<char>, k: int)
    requires
        all_digits(s),
        0 <= k <= s.len(),
    ensures
        digits_val(s.subrange(0, k)) <= digits_val(s),
    decreases s.len() - k,
{
    if k == s.len() {
        assert(s.subrange(0, k) =~= s);
    } else {
        let p = s.subrange(0, k + 1);
        assert(p.drop_last() =~= s.subrange(0, k));
        assert(all_digits(p.drop_last()));
        lemma_digits_val_nonneg(p.drop_last());
        assert(digits_val(p) == digits_val(p.drop_last()) * 10 + digit_val(p.last()));
        lemma_digits_val_mono(s, k + 1);
    }
}

/// Parses the characters `from..to` of a string as an unsigned decimal.
pub fn parse_u32_range(s: &str, from: usize, to: usize) -> (r: Option<u32>)
    requires
        from <= to,
        to <= s@.len(),
    ensures
        r == spec_parse_u32(s@.subrange(from as int, to as int)),
{
    let ghost sub = s@.subrange(from as int, to as int);
    if from == to {
        return None;
    }
    let mut acc: u64 = 0;
    let mut i = from;
    while i < to
        invariant
            from <= i <= to,
            to <= s@.len(),
            sub == s@.subrange(from as int, to as int),
            all_digits(sub.subrange(0, i - from)),
            acc == digits_val(sub.subrange(0, i - from)),
            acc <= u32::MAX,
        decreases to - i,
    {
        let c = s.get_char(i);
        let cv = c as u32;
        proof {
            assert(sub[i - from] == s@[i as int]);
        }
        if cv < 48 || cv > 57 {
            proof {
                assert(!is_ascii_digit(sub[i - from]));
            }
            return None;
        }
        let d = (cv - 48) as u64;
        let ghost k = i - from;
        acc = acc * 10 + d;
        proof {
            let p = sub.subrange(0, k + 1);
            assert(p.drop_last() =~= sub.subrange(0, k));
            assert(p.last() == sub[k]);
            assert(all_digits(p));
            assert(acc == digits_val(p));
        }
        if acc > 0xFFFF_FFFFu64 {
            proof {
                if all_digits(sub) {
                    lemma_digits_val_mono(sub, k + 1);
                }
            }
            return None;
        }
        i += 1;
    }
    proof {
        assert(sub.subrange(0, to - from) =~= sub);
    }
    Some(acc as u32)
}

/// Returns the first position of a character in a string, if any.
pub fn find_char(s: &str, c: char) -> (r: Option<usize>)
    ensures
        match r {
            Some(i) => i < s@.len() && s@[i as int] == c && forall|j: int| 0 <= j < i ==> s@[j] != c,
            None => forall|j: int| 0 <= j < s@.len() ==> s@[j] != c,
        },
{
    let n = s.unicode_len();
    let mut i: usize = 0;
    while i < n
        invariant
            i <= n,
            n == s@.len(),
            forall|j: int| 0 <= j < i ==> s@[j] != c,
        decreases n - i,
    {
        if s.get_char(i) == c {
            return Some(i);
        }
        i += 1;
    }
    None
}

/// The character at position `m` is the first 'x' of the string.
pub open spec fn first_x_at(s: Seq<char>, m: int) -> bool {
    &&& 0 <= m < s.len()
    &&& s[m] == 'x'
    &&& forall|j: int| 0 <= j < m ==> s[j] != 'x'
}

/// What parsing a resolution line yields: the string must read as an
/// unsigned decimal, then its first 'x', then another unsigned decimal.
pub open spec fn spec_parse_resolution(s: Seq<char>) -> Option<ResolutionPair> {
    if exists|m: int| first_x_at(s, m) {
        let m = choose|m: int| first_x_at(s, m);
        match (spec_parse_u32(s.subrange(0, m)), spec_parse_u32(s.subrange(m + 1, s.len() as int))) {
            (Some(w), Some(h)) => Some(ResolutionPair { width: w, height: h }),
            _ => None,
        }
    } else {
        None
    }
}

/// Splits a player-facing resolution line such as a width, an 'x' and a
/// height into the two pixel counts.
pub fn parse_resolution(line: &str) -> (r: Option<ResolutionPair>)
    ensures
        r == spec_parse_resolution(line@),
{
    let n = line.unicode_len();
    match find_char(line, 'x') {
        Some(m) => {
            proof {
                assert(first_x_at(line@, m as int));
                let mc = choose|mm: int| first_x_at(line@, mm);
                if mc < m as int {
                    assert(line@[mc] != 'x');
                } else if mc > m as int {
                    assert(line@[m as int] != 'x');
                }
                assert(mc == m as int);
            }
            let w = parse_u32_range(line, 0, m);
            let h = parse_u32_range(line, m + 1, n);
            match (w, h) {
                (Some(w), Some(h)) => Some(ResolutionPair { width: w, height: h }),
                _ => None,
            }
        },
        None => {
            proof {
                if exists|m: int| first_x_at(line@, m) {
                    let m = choose|m: int| first_x_at(line@, m);
                    assert(line@[m] != 'x');
                }
            }
            None
        },
    }
}

/// The label entries a resolution list gives rise to: each line labels its
/// own index.
pub open spec fn resolution_labels(lines: Seq<String>) -> Seq<LabelEntry> {
    Seq::new(lines.len(), |i: int| LabelEntry { value: i as i32, label: lines[i] })
}

impl SettingsInfo {
    /// Inserts or replaces the label table of one named setting.
    fn insert_table(&mut self, t: NameTable)
        requires
            old(self).wf(),
            unique_label_values(t.labels@),
        ensures
            final(self).wf(),
            final(self).names_view() == old(self).names_view().insert(
                t.name@,
                labels_map(t.labels@),
            ),
            final(self).resolutions@ == old(self).resolutions@,
            final(self).resolution_values@ == old(self).resolution_values@,
    {
        let n = self.names.len();
        for i in 0..n
            invariant
                self.wf(),
                n == self.names@.len(),
                *self == *old(self),
                unique_label_values(t.labels@),
                forall|j: int| 0 <= j < i ==> self.names@[j].name@ != t.name@,
        {
            if self.names[i].name == t.name {
                proof {
                    crate::settings::lemma_names_map_update(self.names@, i as int, t);
                }
                self.names[i] = t;
                return ;
            }
        }
        proof {
            crate::settings::lemma_names_map_push(self.names@, t);
        }
        self.names.push(t);
    }

    /// Turns the raw resolution lines into usable data: parses each line
    /// into a pixel size appended to `resolution_values`, builds the
    /// value-to-label table for the "resolution" setting, and clears the raw
    /// lines. A line that does not read as width, 'x', height fails the
    /// whole conversion and leaves the metadata untouched.
    pub fn build_resolution_table(&mut self) -> (r: Result<(), String>)
        requires
            old(self).wf(),
            old(self).resolutions@.len() <= i32::MAX,
        ensures
            r is Ok <==> forall|i: int|
                0 <= i < old(self).resolutions@.len() ==> spec_parse_resolution(
                    #[trigger] old(self).resolutions@[i]@,
                ) is Some,
            r is Ok ==> final(self).wf(),
            r is Ok ==> final(self).resolution_values@ == old(self).resolution_values@
                + Seq::new(
                old(self).resolutions@.len(),
                |i: int| spec_parse_resolution(old(self).resolutions@[i]@)->0,
            ),
            r is Ok ==> final(self).names_view() == old(self).names_view().insert(
                "resolution"@,
                labels_map(resolution_labels(old(self).resolutions@)),
            ),
            r is Ok ==> final(self).resolutions@ == Seq::<String>::empty(),
            r is Err ==> *final(self) == *old(self),
    {
        let mut pairs: Vec<ResolutionPair> = Vec::new();
        let mut labels: Vec<LabelEntry> = Vec::new();
        let n = self.resolutions.len();
        for i in 0..n
            invariant
                *self == *old(self),
                self.wf(),
                n == self.resolutions@.len(),
                n <= i32::MAX,
                pairs@.len() == i,
                labels@.len() == i,
                forall|k: int|
                    0 <= k < i ==> spec_parse_resolution(#[trigger] self.resolutions@[k]@) is Some,
                forall|k: int|
                    0 <= k < i ==> pairs@[k] == spec_parse_resolution(
                        #[trigger] self.resolutions@[k]@,
                    )->0,
                forall|k: int|
                    0 <= k < i ==> labels@[k] == (LabelEntry {
                        value: k as i32,
                        label: self.resolutions@[k],
                    }),
        {
            match parse_resolution(self.resolutions[i].as_str()) {
                Some(p) => {
                    pairs.push(p);
                    labels.push(LabelEntry { value: i as i32, label: self.resolutions[i].clone() });
                },
                None => {
                    return Err("invalid resolution line: expected width, 'x', height".to_owned());
                },
            }
        }
        proof {
            assert(labels@ =~= resolution_labels(self.resolutions@));
            assert forall|p: int, q: int| 0 <= p < q < labels@.len() implies labels@[p].value
                != labels@[q].value by {
                assert(labels@[p].value == p as i32);
                assert(labels@[q].value == q as i32);
            }
        }
        self.resolution_values.append(&mut pairs);
        let table = NameTable { name: "resolution".to_owned(), labels };
        self.insert_table(table);
        self.resolutions.clear();
        Ok(())
    }
}

/// How the window is to be presented: windowed, exclusive fullscreen, or a
/// borderless window at desktop size.
#[derive(Clone, Copy, Debug, PartialEq, Eq, Structural)]
pub enum FullscreenMode {
    Off,
    Exclusive,
    Desktop,
}

/// The fullscreen mode a stored setting value selects. Unknown values fall
/// back to windowed mode.
pub open spec fn spec_fullscreen_mode(v: int) -> FullscreenMode {
    if v == 1 {
        FullscreenMode::Exclusive
    } else if v == 2 {
        FullscreenMode::Desktop
    } else {
        FullscreenMode::Off
    }
}

/// What the window backend is asked to do to honor the current settings.
#[derive(Clone, Copy, Debug, PartialEq, Eq, Structural)]
pub struct DisplayPlan {
    pub fullscreen: FullscreenMode,
    /// The window size to set, when a valid resolution is selected.
    pub resize: Option<ResolutionPair>,
    /// Whether the logical canvas size is pinned after the resize; done only
    /// in windowed mode.
    pub set_logical: bool,
}

impl Settings {
    /// Decides what the window backend must do for the current settings: no
    /// plan while nothing changed or no fullscreen mode is stored; otherwise
    /// the stored fullscreen mode, the stored resolution resolved against
    /// the metadata's size list, and whether to pin the logical canvas size.
    /// A stored resolution index outside the size list is an error.
    pub fn plan_display_update(&self, info: &SettingsInfo) -> (r: Result<
        Option<DisplayPlan>,
        String,
    >)
        requires
            self.wf(),
        ensures
            match r {
                Ok(op) => match op {
                    None => !self.values_changed || !self.map_view().contains_key(
                        "fullscreen_type"@,
                    ),
                    Some(plan) => {
                        &&& self.values_changed
                        &&& self.map_view().contains_key("fullscreen_type"@)
                        &&& plan.fullscreen == spec_fullscreen_mode(
                            self.map_view()["fullscreen_type"@],
                        )
                        &&& match plan.resize {
                            Some(pair) => {
                                &&& self.map_view().contains_key("resolution"@)
                                &&& 0 <= self.map_view()["resolution"@]
                                    < info.resolution_values@.len()
                                &&& pair == info.resolution_values@[self.map_view()["resolution"@]]
                            },
                            None => !self.map_view().contains_key("resolution"@),
                        }
                        &&& plan.set_logical == (plan.resize is Some && plan.fullscreen
                            is Off)
                    },
                },
                Err(_) => {
                    &&& self.values_changed
                    &&& self.map_view().contains_key("fullscreen_type"@)
                    &&& self.map_view().contains_key("resolution"@)
                    &&& !(0 <= self.map_view()["resolution"@] < info.resolution_values@.len())
                },
            },
    {
        if !self.values_changed {
            return Ok(None);
        }
        let fullscreen = match self.get("fullscreen_type".to_owned()) {
            Some(v) => *v,
            None => {
                return Ok(None);
            },
        };
        let mode = if fullscreen == 1 {
            FullscreenMode::Exclusive
        } else if fullscreen == 2 {
            FullscreenMode::Desktop
        } else {
            FullscreenMode::Off
        };
        let resize = match self.get("resolution".to_owned()) {
            Some(res) => {
                let res = *res;
                if res >= 0 && (res as usize) < info.resolution_values.len() {
                    Some(info.resolution_values[res as usize])
                } else {
                    return Err("stored resolution is not in the list of sizes".to_owned());
                }
            },
            None => None,
        };
        let set_logical = resize.is_some() && matches!(mode, FullscreenMode::Off);
        Ok(Some(DisplayPlan { fullscreen: mode, resize, set_logical }))
    }

    /// Records that the current settings have been applied: dependent
    /// systems stop reconciling until the next write.
    pub fn mark_applied(&mut self)
        ensures
            final(self).values@ == old(self).values@,
            !final(self).values_changed,
    {
        self.values_changed = false;
    }
}

} // verus!
