//! The file selector: a listing of one folder, a cursor in it, and moves
//! between folders. Reading folders is left to the caller, which hands the
//! listing to `update_entries` after each move.
use vstd::prelude::*;
use crate::text::{chars_of, string_from_chars};
use crate::ui::{FileAction, SelectorEntry, SelectorEntryKind, SelectorEntryView};

verus! {

/// The name of the entry that leads to the parent folder.
pub const BACK_ENTRY_NAME: &'static str = "../";

/// The file suffixes that can be sent.
pub open spec fn is_transferable_suffix(s: Seq<char>) -> bool {
    s == seq!['t', 'x', 't'] || s == seq!['p', 'n', 'g'] || s == seq!['j', 'p', 'g']
}

/// The text after the last `.` of `name`, or all of `name` when it has no
/// `.`: the last piece that `split(".")` gives.
pub open spec fn suffix_of(name: Seq<char>) -> Seq<char>
    decreases name.len(),
{
    if name.len() == 0 {
        name
    } else if name.last() == '.' {
        Seq::empty()
    } else {
        suffix_of(name.drop_last()).push(name.last())
    }
}

/// One item of a folder listing: its name and whether it is a folder.
#[derive(Debug)]
pub struct DirItem {
    pub name: String,
    pub is_dir: bool,
}

/// The selector entry for a listed item.
pub open spec fn entry_for(name: Seq<char>, is_dir: bool) -> SelectorEntryView {
    SelectorEntryView {
        name,
        kind: if is_dir {
            SelectorEntryKind::Folder
        } else {
            SelectorEntryKind::File
        },
        selected: false,
    }
}

/// Whether a listed item is shown: every folder, and files with a suffix
/// that can be sent.
pub open spec fn is_shown(item: DirItem) -> bool {
    item.is_dir || is_transferable_suffix(suffix_of(item.name@))
}

/// The entries shown for a listing, in the order of the listing.
pub open spec fn shown_entries(listing: Seq<DirItem>) -> Seq<SelectorEntryView>
    decreases listing.len(),
{
    if listing.len() == 0 {
        Seq::empty()
    } else {
        let rest = shown_entries(listing.drop_last());
        let item = listing.last();
        if is_shown(item) {
            rest.push(entry_for(item.name@, item.is_dir))
        } else {
            rest
        }
    }
}

/// The entry that leads to the parent folder.
pub open spec fn back_entry() -> SelectorEntryView {
    SelectorEntryView { name: seq!['.', '.', '/'], kind: SelectorEntryKind::Folder, selected: false }
}

/// The entries with the one at `index`, if there is one, marked selected.
pub open spec fn mark_selected(entries: Seq<SelectorEntryView>, index: int) -> Seq<SelectorEntryView> {
    if 0 <= index < entries.len() {
        entries.update(index, SelectorEntryView { selected: true, ..entries[index] })
    } else {
        entries
    }
}

/// The views of a list of selector entries.
pub open spec fn entry_views(v: Seq<SelectorEntry>) -> Seq<SelectorEntryView> {
    v.map_values(|e: SelectorEntry| e@)
}

/// The views of a path, one string per component.
pub open spec fn path_views(v: Seq<String>) -> Seq<Seq<char>> {
    v.map_values(|s: String| s@)
}

/// The file selector.
pub struct FileSelector {
    /// The folder shown, as the names of its path components from the root.
    pub current_location: Vec<String>,
    pub selected_index: usize,
    pub entries: Vec<SelectorEntry>,
    pub scroll_offset: u16,
    pub active_action: FileAction,
}

/// The file selector as a value.
pub struct FileSelectorView {
    pub current_location: Seq<Seq<char>>,
    pub selected_index: usize,
    pub entries: Seq<SelectorEntryView>,
    pub scroll_offset: u16,
    pub active_action: FileAction,
}

impl View for FileSelector {
    type V = FileSelectorView;

    open spec fn view(&self) -> FileSelectorView {
        FileSelectorView {
            current_location: path_views(self.current_location@),
            selected_index: self.selected_index,
            entries: entry_views(self.entries@),
            scroll_offset: self.scroll_offset,
            active_action: self.active_action,
        }
    }
}

/// The selector after moving the cursor one entry up.
pub open spec fn fs_up(v: FileSelectorView) -> FileSelectorView {
    FileSelectorView {
        selected_index: if v.selected_index != 0 {
            (v.selected_index - 1) as usize
        } else {
            0
        },
        ..v
    }
}

/// The selector after moving the cursor one entry down.
pub open spec fn fs_down(v: FileSelectorView) -> FileSelectorView {
    FileSelectorView {
        selected_index: if v.selected_index != v.entries.len() - 1 {
            (v.selected_index + 1) as usize
        } else {
            v.selected_index
        },
        ..v
    }
}

/// The selector after going up to the parent folder.
pub open spec fn fs_close_folder(v: FileSelectorView) -> FileSelectorView {
    FileSelectorView {
        current_location: if v.current_location.len() > 0 {
            v.current_location.drop_last()
        } else {
            v.current_location
        },
        selected_index: 0,
        ..v
    }
}

/// Whether entering the selected entry changes the folder: it is a folder
/// other than the parent.
pub open spec fn fs_opens(v: FileSelectorView) -> bool {
    let e = v.entries[v.selected_index as int];
    e.kind == SelectorEntryKind::Folder && e.name != seq!['.', '.', '/']
}

/// The selector after entering the selected entry.
pub open spec fn fs_open(v: FileSelectorView) -> FileSelectorView {
    if fs_opens(v) {
        FileSelectorView {
            current_location: v.current_location.push(v.entries[v.selected_index as int].name),
            selected_index: 0,
            ..v
        }
    } else {
        v
    }
}

/// The selector after switching between sending files and images.
pub open spec fn fs_switched(v: FileSelectorView) -> FileSelectorView {
    FileSelectorView {
        active_action: match v.active_action {
            FileAction::File => FileAction::ASCII,
            FileAction::ASCII => FileAction::File,
        },
        ..v
    }
}

/// Whether `name` is the name of the entry that leads to the parent folder.
fn is_back_name(name: &String) -> (b: bool)
    ensures
        b == (name@ == seq!['.', '.', '/']),
{
    let v = chars_of(name.as_str());
    let b = v.len() == 3 && v[0] == '.' && v[1] == '.' && v[2] == '/';
    proof {
        let t = seq!['.', '.', '/'];
        assert(t.len() == 3 && t[0] == '.' && t[1] == '.' && t[2] == '/');
        if b {
            assert(v@ =~= t);
        }
    }
    b
}

/// The entry that leads to the parent folder.
fn make_back_entry() -> (e: SelectorEntry)
    ensures
        e@ == back_entry(),
{
    let name = string_from_chars(&['.', '.', '/']);
    proof {
        assert(seq!['.', '.', '/'] =~= (['.', '.', '/'])@);
    }
    SelectorEntry { name, kind: SelectorEntryKind::Folder, selected: false }
}

/// The text after the last `.` of `name`.
pub fn suffix(name: &[char]) -> (s: Vec<char>)
    ensures
        s@ == suffix_of(name@),
{
    let mut start: usize = name.len();
    assert(name@.subrange(0, name@.len() as int) == name@);
    assert(name@.subrange(name@.len() as int, name@.len() as int) =~= Seq::<char>::empty());
    while start > 0 && name[start - 1] != '.'
        invariant
            start <= name.len(),
            suffix_of(name@) == suffix_of(name@.subrange(0, start as int)) + name@.subrange(
                start as int,
                name@.len() as int,
            ),
        decreases start,
    {
        let ghost p = name@.subrange(0, start as int);
        proof {
            assert(p.drop_last() == name@.subrange(0, start - 1));
            assert(p.last() == name@[start - 1]);
            assert(name@.subrange(start - 1, name@.len() as int) == seq![name@[start - 1]]
                + name@.subrange(start as int, name@.len() as int));
        }
        start = start - 1;
    }
    proof {
        let p = name@.subrange(0, start as int);
        if start > 0 {
            assert(p.last() == name@[start - 1]);
        }
        assert(suffix_of(p) == Seq::<char>::empty());
    }
    let mut out: Vec<char> = Vec::new();
    let mut i: usize = start;
    while i < name.len()
        invariant
            start <= i <= name.len(),
            out@ == name@.subrange(start as int, i as int),
        decreases name.len() - i,
    {
        out.push(name[i]);
        proof {
            assert(name@.subrange(start as int, i + 1) == name@.subrange(start as int, i as int).push(
                name@[i as int],
            ));
        }
        i = i + 1;
    }
    out
}

/// Whether files with suffix `s` can be sent.
fn transferable(s: &[char]) -> (b: bool)
    ensures
        b == is_transferable_suffix(s@),
{
    let b = s.len() == 3 && ((s[0] == 't' && s[1] == 'x' && s[2] == 't') || (s[0] == 'p' && s[1]
        == 'n' && s[2] == 'g') || (s[0] == 'j' && s[1] == 'p' && s[2] == 'g'));
    proof {
        if s@.len() == 3 {
            assert(s@ == seq![s@[0], s@[1], s@[2]]);
        }
    }
    b
}

/// Whether the first entry leads to the parent folder.
pub open spec fn fs_wf(v: FileSelectorView) -> bool {
    &&& v.entries.len() >= 1
    &&& v.entries[0].name == seq!['.', '.', '/']
    &&& v.entries[0].kind == SelectorEntryKind::Folder
}

impl FileSelector {
    /// Whether the selector is well formed: its first entry always leads to
    /// the parent folder.
    pub open spec fn wf(&self) -> bool {
        fs_wf(self@)
    }

    /// A selector showing `location`, with only the entry to the parent
    /// folder until a listing is given.
    pub fn new(location: Vec<String>) -> (fs: FileSelector)
        ensures
            fs.wf(),
            fs.current_location@ == location@,
            fs.selected_index == 0,
            entry_views(fs.entries@) == seq![back_entry()],
            fs.scroll_offset == 0,
            fs.active_action == FileAction::File,
    {
        let mut entries: Vec<SelectorEntry> = Vec::new();
        entries.push(make_back_entry());
        FileSelector {
            current_location: location,
            selected_index: 0,
            entries,
            scroll_offset: 0,
            active_action: FileAction::File,
        }
    }

    /// Enters the selected folder. Nothing changes when the selected entry
    /// is a file or the entry to the parent folder. Returns whether the
    /// folder changed, and so whether it must be listed again.
    pub fn open_folder(&mut self) -> (moved: bool)
        requires
            old(self).selected_index < old(self).entries@.len(),
        ensures
            ({
                let e = old(self).entries@[old(self).selected_index as int]@;
                moved == (e.kind == SelectorEntryKind::Folder && e.name != seq!['.', '.', '/'])
            }),
            moved ==> path_views(final(self).current_location@) == path_views(
                old(self).current_location@,
            ).push(old(self).entries@[old(self).selected_index as int]@.name),
            moved ==> final(self).selected_index == 0,
            !moved ==> final(self).current_location@ == old(self).current_location@,
            !moved ==> final(self).selected_index == old(self).selected_index,
            final(self).entries@ == old(self).entries@,
            final(self).scroll_offset == old(self).scroll_offset,
            final(self).active_action == old(self).active_action,
            final(self)@ == fs_open(old(self)@),
            moved == fs_opens(old(self)@),
    {
        let i = self.selected_index;
        let is_folder = self.entries[i].kind == SelectorEntryKind::Folder;
        if !is_folder || is_back_name(&self.entries[i].name) {
            return false;
        }
        let name = self.entries[i].name.clone();
        let ghost before = self.current_location@;
        self.current_location.push(name);
        proof {
            assert(path_views(self.current_location@) == path_views(before).push(
                self.entries@[i as int]@.name,
            ));
        }
        self.selected_index = 0;
        true
    }

    /// Goes up to the parent folder, unless the root is shown.
    pub fn close_current_folder(&mut self)
        ensures
            final(self).current_location@ == (if old(self).current_location@.len() > 0 {
                old(self).current_location@.drop_last()
            } else {
                old(self).current_location@
            }),
            final(self).selected_index == 0,
            final(self).entries@ == old(self).entries@,
            final(self).scroll_offset == old(self).scroll_offset,
            final(self).active_action == old(self).active_action,
            final(self)@ == fs_close_folder(old(self)@),
    {
        let ghost before = self.current_location@;
        if self.current_location.len() > 0 {
            self.current_location.pop();
            proof {
                assert(path_views(self.current_location@) =~= path_views(before).drop_last());
            }
        }
        self.selected_index = 0;
    }

    /// Moves the cursor one entry down, unless it is on the last entry.
    pub fn move_down(&mut self)
        requires
            old(self).wf(),
            old(self).selected_index < usize::MAX,
        ensures
            final(self).selected_index == (if old(self).selected_index != old(self).entries@.len()
                - 1 {
                old(self).selected_index + 1
            } else {
                old(self).selected_index as int
            }),
            final(self).current_location@ == old(self).current_location@,
            final(self).entries@ == old(self).entries@,
            final(self).scroll_offset == old(self).scroll_offset,
            final(self).active_action == old(self).active_action,
            final(self)@ == fs_down(old(self)@),
    {
        let len = self.entries.len();
        let i = self.selected_index;
        if i != len - 1 {
            self.selected_index = i + 1;
        }
    }

    /// Moves the cursor one entry up, unless it is on the first entry.
    pub fn move_up(&mut self)
        ensures
            final(self).selected_index == (if old(self).selected_index != 0 {
                old(self).selected_index - 1
            } else {
                0
            }),
            final(self).current_location@ == old(self).current_location@,
            final(self).entries@ == old(self).entries@,
            final(self).scroll_offset == old(self).scroll_offset,
            final(self).active_action == old(self).active_action,
            final(self)@ == fs_up(old(self)@),
    {
        let i = self.selected_index;
        if i != 0 {
            self.selected_index = i - 1;
        }
    }

    /// Shows `location` again from its first entry.
    pub fn reset_location(&mut self, location: Vec<String>)
        ensures
            final(self).current_location@ == location@,
            final(self).selected_index == 0,
            final(self).entries@ == old(self).entries@,
            final(self).scroll_offset == old(self).scroll_offset,
            final(self).active_action == old(self).active_action,
    {
        self.current_location = location;
        self.selected_index = 0;
    }

    /// Switches between sending files and sending images drawn in text.
    pub fn switch_action(&mut self)
        ensures
            final(self).active_action == (match old(self).active_action {
                FileAction::File => FileAction::ASCII,
                FileAction::ASCII => FileAction::File,
            }),
            final(self).current_location@ == old(self).current_location@,
            final(self).selected_index == old(self).selected_index,
            final(self).entries@ == old(self).entries@,
            final(self).scroll_offset == old(self).scroll_offset,
            final(self)@ == fs_switched(old(self)@),
    {
        self.active_action = match self.active_action {
            FileAction::File => FileAction::ASCII,
            FileAction::ASCII => FileAction::File,
        };
    }

    /// Replaces the entries with those of `listing`: the entry to the parent
    /// folder, then every folder and every file that can be sent, in the
    /// order of the listing; the entry under the cursor is marked selected.
    pub fn update_entries(&mut self, listing: Vec<DirItem>)
        ensures
            final(self).wf(),
            entry_views(final(self).entries@) == mark_selected(
                seq![back_entry()] + shown_entries(listing@),
                old(self).selected_index as int,
            ),
            final(self).current_location@ == old(self).current_location@,
            final(self).selected_index == old(self).selected_index,
            final(self).scroll_offset == old(self).scroll_offset,
            final(self).active_action == old(self).active_action,
    {
        let mut entries: Vec<SelectorEntry> = Vec::new();
        entries.push(make_back_entry());
        let mut i: usize = 0;
        while i < listing.len()
            invariant
                i <= listing.len(),
                entry_views(entries@) == seq![back_entry()] + shown_entries(
                    listing@.subrange(0, i as int),
                ),
            decreases listing.len() - i,
        {
            let item = &listing[i];
            let name = chars_of(item.name.as_str());
            let sfx = suffix(name.as_slice());
            let ghost before = entries@;
            proof {
                let p = listing@.subrange(0, i + 1);
                assert(p.drop_last() == listing@.subrange(0, i as int));
                assert(p.last() == listing@[i as int]);
            }
            if item.is_dir || transferable(sfx.as_slice()) {
                let kind = if item.is_dir {
                    SelectorEntryKind::Folder
                } else {
                    SelectorEntryKind::File
                };
                entries.push(SelectorEntry { name: item.name.clone(), kind, selected: false });
                proof {
                    assert(entry_views(entries@) == entry_views(before).push(
                        entry_for(listing@[i as int].name@, listing@[i as int].is_dir),
                    ));
                }
            }
            i = i + 1;
        }
        assert(listing@.subrange(0, listing@.len() as int) == listing@);
        let idx = self.selected_index;
        if idx < entries.len() {
            let ghost before = entries@;
            entries[idx].selected = true;
            proof {
                assert(entry_views(entries@) == entry_views(before).update(
                    idx as int,
                    SelectorEntryView { selected: true, ..entry_views(before)[idx as int] },
                ));
            }
        }
        proof {
            assert(entries@[0]@ == entry_views(entries@)[0]);
        }
        self.entries = entries;
    }

    /// Keeps the cursor in view of a list `view_height` rows high: scrolls
    /// down one row when the cursor reaches the bottom row, and up to the
    /// cursor when it is above the view.
    pub fn adjust_scroll(&mut self, view_height: u16)
        requires
            2 <= old(self).scroll_offset + view_height <= u16::MAX,
            old(self).selected_index >= old(self).scroll_offset + view_height - 2 ==> old(
                self,
            ).scroll_offset < u16::MAX,
        ensures
            ({
                let bottom = old(self).scroll_offset + view_height - 2;
                let down = if old(self).selected_index >= bottom {
                    old(self).scroll_offset + 1
                } else {
                    old(self).scroll_offset as int
                };
                final(self).scroll_offset == (if old(self).selected_index < down {
                    old(self).selected_index as int
                } else {
                    down
                })
            }),
            final(self).current_location@ == old(self).current_location@,
            final(self).selected_index == old(self).selected_index,
            final(self).entries@ == old(self).entries@,
            final(self).active_action == old(self).active_action,
    {
        let bottom = self.scroll_offset + view_height - 2;
        if self.selected_index >= bottom as usize {
            self.scroll_offset = self.scroll_offset + 1;
        }
        if self.selected_index < self.scroll_offset as usize {
            self.scroll_offset = self.selected_index as u16;
        }
    }
}

} // verus!
