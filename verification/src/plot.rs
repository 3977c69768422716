//! The plot viewer: the images of a directory, browsed one at a time, with
//! the directory scanned again when its contents change.
//!
//! Loading and decoding images is done by the program; the pane decides
//! which file to load and what to show meanwhile.

use vstd::prelude::*;
use crate::context::last_index_of;
use crate::filetree::{text_le, lemma_text_le_total, lemma_text_le_transitive, text_le_exec};
use crate::text::{chars_of, owned, slice_chars, str_eq, texts};

verus! {

broadcast use vstd::seq_lib::group_to_multiset_ensures;

/// The file name of a path: what follows its last `/`.
pub open spec fn file_name(path: Seq<char>) -> Seq<char> {
    match last_index_of(path, '/') {
        Some(p) => path.skip(p + 1),
        None => path,
    }
}

/// The extension of a file name (`Path::extension`): what follows its last
/// dot, unless that dot is the name's first character.
pub open spec fn extension(name: Seq<char>) -> Option<Seq<char>> {
    match last_index_of(name, '.') {
        Some(p) => if p > 0 { Some(name.skip(p + 1)) } else { None },
        None => None,
    }
}

/// Whether a path names an image the viewer shows: png, jpg, jpeg, gif, bmp or webp.
pub open spec fn is_image(path: Seq<char>) -> bool {
    match extension(file_name(path)) {
        Some(e) => e == "png"@ || e == "jpg"@ || e == "jpeg"@ || e == "gif"@ || e == "bmp"@ || e == "webp"@,
        None => false,
    }
}

fn last_index(v: &Vec<char>, c: char) -> (r: Option<usize>)
    ensures
        match r {
            Some(p) => last_index_of(v@, c) == Some(p as int) && p < v@.len(),
            None => last_index_of(v@, c) is None,
        },
{
    let mut j = v.len();
    assert(v@.take(v@.len() as int) =~= v@);
    while j > 0
        invariant
            j <= v@.len(),
            last_index_of(v@, c) == last_index_of(v@.take(j as int), c),
        decreases j,
    {
        if v[j - 1] == c {
            return Some(j - 1);
        }
        assert(v@.take(j as int).drop_last() =~= v@.take(j - 1));
        j = j - 1;
    }
    None
}

/// The file name of a path (see [`file_name`]).
pub fn file_name_of(path: &str) -> (r: String)
    ensures
        r@ == file_name(path@),
{
    let v = chars_of(path);
    let n = v.len();
    let name = match last_index(&v, '/') {
        Some(p) => slice_chars(&v, p + 1, n),
        None => v,
    };
    assert(name@ =~= file_name(path@));
    crate::text::string_from_chars(name.as_slice())
}

/// Whether a path names an image the viewer shows (see [`is_image`]).
pub fn is_image_path(path: &str) -> (r: bool)
    ensures
        r == is_image(path@),
{
    let v = chars_of(path);
    let n = v.len();
    let name = match last_index(&v, '/') {
        Some(p) => slice_chars(&v, p + 1, n),
        None => v,
    };
    assert(name@ =~= file_name(path@));
    let m = name.len();
    match last_index(&name, '.') {
        Some(p) => {
            if p > 0 {
                let ext = crate::text::string_from_chars(slice_chars(&name, p + 1, m).as_slice());
                assert(ext@ =~= name@.skip(p + 1));
                let e = ext.as_str();
                str_eq(e, "png") || str_eq(e, "jpg") || str_eq(e, "jpeg") || str_eq(e, "gif") || str_eq(e, "bmp")
                    || str_eq(e, "webp")
            } else {
                false
            }
        },
        None => false,
    }
}

/// Whether texts are in text order.
pub open spec fn texts_sorted(s: Seq<Seq<char>>) -> bool {
    forall|i: int, j: int| 0 <= i < j < s.len() ==> text_le(#[trigger] s[i], #[trigger] s[j])
}

/// The image paths of a listing, in order of the listing.
pub open spec fn images_of(listing: Seq<Seq<char>>) -> Seq<Seq<char>>
    decreases listing.len(),
{
    if listing.len() == 0 {
        Seq::empty()
    } else {
        let rest = images_of(listing.drop_last());
        if is_image(listing.last()) {
            rest.push(listing.last())
        } else {
            rest
        }
    }
}

/// Orders paths in text order; equal paths keep their order.
pub fn sort_paths(items: Vec<String>) -> (r: Vec<String>)
    ensures
        texts_sorted(texts(r@)),
        texts(r@).to_multiset() == texts(items@).to_multiset(),
{
    let mut out: Vec<String> = Vec::new();
    let mut i: usize = 0;
    while i < items.len()
        invariant
            i <= items@.len(),
            texts_sorted(texts(out@)),
            texts(out@).to_multiset() == texts(items@.take(i as int)).to_multiset(),
        decreases items@.len() - i,
    {
        let x = items[i].clone();
        let xc = chars_of(x.as_str());
        let ghost xv = items@[i as int]@;
        let mut p: usize = 0;
        while p < out.len() && text_le_exec(&chars_of(out[p].as_str()), &xc)
            invariant
                p <= out@.len(),
                xc@ == xv,
                forall|k: int| 0 <= k < p ==> text_le(texts(out@)[k], xv),
            decreases out@.len() - p,
        {
            p = p + 1;
        }
        let ghost before = texts(out@);
        proof {
            if p < before.len() {
                lemma_text_le_total(before[p as int], xv);
                assert forall|k: int| p <= k < before.len() implies text_le(xv, before[k]) by {
                    if k > p {
                        assert(text_le(before[p as int], before[k]));
                        lemma_text_le_transitive(xv, before[p as int], before[k]);
                    }
                }
            }
        }
        out.insert(p, x);
        let ghost after = texts(out@);
        assert(after =~= before.insert(p as int, xv));
        proof {
            before.insert_ensures(p as int, xv);
            assert forall|a: int, b: int| 0 <= a < b < after.len() implies text_le(
                #[trigger] after[a],
                #[trigger] after[b],
            ) by {
                if b < p {
                    assert(after[a] == before[a] && after[b] == before[b]);
                } else if b == p {
                    assert(after[a] == before[a]);
                } else if a < p {
                    assert(after[a] == before[a] && after[b] == before[b - 1]);
                    if b - 1 >= p {
                        lemma_text_le_transitive(before[a], xv, before[b - 1]);
                    }
                } else if a == p {
                    assert(after[b] == before[b - 1]);
                } else {
                    assert(after[a] == before[a - 1] && after[b] == before[b - 1]);
                }
            }
            assert(after.remove(p as int) =~= before);
            assert(after.to_multiset().remove(xv) =~= before.to_multiset());
            assert(after.to_multiset() =~= before.to_multiset().insert(xv));
            assert(texts(items@.take(i + 1)) =~= texts(items@.take(i as int)).push(xv));
        }
        i = i + 1;
    }
    assert(items@.take(items@.len() as int) =~= items@);
    out
}

/// The images of a directory listing, ordered by path.
pub fn image_files(listing: &Vec<String>) -> (r: Vec<String>)
    ensures
        texts_sorted(texts(r@)),
        texts(r@).to_multiset() == images_of(texts(listing@)).to_multiset(),
{
    let mut found: Vec<String> = Vec::new();
    let mut i: usize = 0;
    while i < listing.len()
        invariant
            i <= listing@.len(),
            texts(found@) == images_of(texts(listing@).take(i as int)),
        decreases listing@.len() - i,
    {
        let ghost prev = texts(found@);
        assert(texts(listing@).take(i + 1).drop_last() =~= texts(listing@).take(i as int));
        if is_image_path(listing[i].as_str()) {
            found.push(listing[i].clone());
            assert(texts(found@) =~= prev.push(listing@[i as int]@));
        }
        i = i + 1;
    }
    assert(texts(listing@).take(listing@.len() as int) =~= texts(listing@));
    sort_paths(found)
}

/// The first position of a path, if it is there.
fn position_of_text(files: &Vec<String>, target: &str) -> (r: Option<usize>)
    ensures
        match r {
            Some(k) => k < files@.len() && files@[k as int]@ == target@ && forall|q: int|
                0 <= q < k ==> texts(files@)[q] != target@,
            None => !texts(files@).contains(target@),
        },
{
    let t = chars_of(target);
    let mut k: usize = 0;
    while k < files.len()
        invariant
            k <= files@.len(),
            t@ == target@,
            forall|q: int| 0 <= q < k ==> texts(files@)[q] != target@,
        decreases files@.len() - k,
    {
        if crate::text::chars_eq(&chars_of(files[k].as_str()), &t) {
            return Some(k);
        }
        k = k + 1;
    }
    None
}

/// What the image loader reported.
pub enum LoadEvent {
    /// The selected image was loaded and can be shown.
    Loaded,
    /// Loading failed with this message.
    Failed(String),
    /// The loader went away without a result.
    Disconnected,
}

/// What a key asks of the program.
#[derive(Debug)]
pub enum PlotInput {
    /// Nothing to do.
    Nothing,
    /// Scan the directory again now.
    Rescan,
    /// Load this image.
    Load(String),
}

/// The plot viewer's state.
pub struct PlotPane {
    directory: String,
    last_scan_time: u64,
    files: Vec<String>,
    selected_index: usize,
    load_in_progress: bool,
    loaded_index: Option<usize>,
    has_image: bool,
    status_text: Option<String>,
}

/// The mathematical form of the plot viewer.
pub struct PlotView {
    pub directory: Seq<char>,
    pub last_scan_time: u64,
    pub files: Seq<Seq<char>>,
    pub selected_index: usize,
    pub load_in_progress: bool,
    pub loaded_index: Option<usize>,
    pub has_image: bool,
    pub status_text: Option<Seq<char>>,
}

impl View for PlotPane {
    type V = PlotView;

    closed spec fn view(&self) -> PlotView {
        PlotView {
            directory: self.directory@,
            last_scan_time: self.last_scan_time,
            files: texts(self.files@),
            selected_index: self.selected_index,
            load_in_progress: self.load_in_progress,
            loaded_index: self.loaded_index,
            has_image: self.has_image,
            status_text: match self.status_text {
                Some(s) => Some(s@),
                None => None,
            },
        }
    }
}

/// The outcome of asking for the selected image: the state after and the file to load.
pub open spec fn load_step(p: PlotView) -> (PlotView, Option<Seq<char>>) {
    if p.files.len() == 0 {
        (PlotView { has_image: false, loaded_index: None, ..p }, None)
    } else if p.load_in_progress {
        (p, None)
    } else if p.loaded_index == Some(p.selected_index) && p.has_image {
        (p, None)
    } else {
        (
            PlotView { load_in_progress: true, has_image: false, status_text: Some("Loading..."@), ..p },
            Some(p.files[p.selected_index as int]),
        )
    }
}

/// Two texts each no later than the other are the same text.
proof fn lemma_text_le_antisymmetric(a: Seq<char>, b: Seq<char>)
    requires
        text_le(a, b),
        text_le(b, a),
    ensures
        a == b,
    decreases a.len(),
{
    if a.len() > 0 && b.len() > 0 {
        lemma_text_le_antisymmetric(a.drop_first(), b.drop_first());
        assert(a =~= seq![a[0]] + a.drop_first());
        assert(b =~= seq![b[0]] + b.drop_first());
    }
}

/// Sorted sequences of texts with the same items are equal.
proof fn lemma_sorted_unique(s1: Seq<Seq<char>>, s2: Seq<Seq<char>>)
    requires
        texts_sorted(s1),
        texts_sorted(s2),
        s1.to_multiset() == s2.to_multiset(),
    ensures
        s1 == s2,
    decreases s1.len(),
{
    broadcast use vstd::seq_lib::group_to_multiset_ensures;
    s1.to_multiset_ensures();
    s2.to_multiset_ensures();
    assert(s1.len() == s2.len()) by {
        vstd::seq_lib::to_multiset_len(s1);
        vstd::seq_lib::to_multiset_len(s2);
    }
    if s1.len() > 0 {
        let n = s1.len() - 1;
        let x = s1.last();
        let y = s2.last();
        assert(s1.contains(x));
        vstd::seq_lib::to_multiset_contains(s1, x);
        vstd::seq_lib::to_multiset_contains(s2, x);
        assert(s2.contains(x));
        let jx = choose|j: int| 0 <= j < s2.len() && s2[j] == x;
        assert(s2.contains(y));
        vstd::seq_lib::to_multiset_contains(s2, y);
        vstd::seq_lib::to_multiset_contains(s1, y);
        let jy = choose|j: int| 0 <= j < s1.len() && s1[j] == y;
        if jx < n {
            assert(text_le(s2[jx], s2[n]));
        } else {
            lemma_text_le_reflexive(x);
        }
        if jy < n {
            assert(text_le(s1[jy], s1[n]));
        } else {
            lemma_text_le_reflexive(y);
        }
        lemma_text_le_antisymmetric(x, y);
        let t1 = s1.drop_last();
        let t2 = s2.drop_last();
        assert(s1 =~= t1.push(x));
        assert(s2 =~= t2.push(x));
        vstd::seq_lib::to_multiset_build(t1, x);
        vstd::seq_lib::to_multiset_build(t2, x);
        assert(t1.to_multiset() =~= t2.to_multiset()) by {
            broadcast use vstd::multiset::group_multiset_axioms;
            assert forall|v: Seq<char>| t1.to_multiset().count(v) == t2.to_multiset().count(v) by {
                assert(s1.to_multiset() == t1.to_multiset().insert(x));
                assert(s2.to_multiset() == t2.to_multiset().insert(x));
                assert(s1.to_multiset().count(v) == s2.to_multiset().count(v));
                if v == x {
                    assert(t1.to_multiset().insert(x).count(v) == t1.to_multiset().count(v) + 1);
                    assert(t2.to_multiset().insert(x).count(v) == t2.to_multiset().count(v) + 1);
                } else {
                    assert(t1.to_multiset().insert(x).count(v) == t1.to_multiset().count(v));
                    assert(t2.to_multiset().insert(x).count(v) == t2.to_multiset().count(v));
                }
            }
        }
        assert(texts_sorted(t1)) by {
            assert forall|i: int, j: int| 0 <= i < j < t1.len() implies text_le(#[trigger] t1[i], #[trigger] t1[j]) by {
                assert(t1[i] == s1[i] && t1[j] == s1[j]);
            }
        }
        assert(texts_sorted(t2)) by {
            assert forall|i: int, j: int| 0 <= i < j < t2.len() implies text_le(#[trigger] t2[i], #[trigger] t2[j]) by {
                assert(t2[i] == s2[i] && t2[j] == s2[j]);
            }
        }
        lemma_sorted_unique(t1, t2);
    } else {
        assert(s1 =~= s2);
    }
}

/// Every text is no later than itself.
proof fn lemma_text_le_reflexive(a: Seq<char>)
    ensures
        text_le(a, a),
    decreases a.len(),
{
    if a.len() > 0 {
        lemma_text_le_reflexive(a.drop_first());
    }
}

/// The previous position, wrapping to the last.
pub open spec fn prev_index(sel: usize, len: nat) -> usize {
    if sel == 0 { (len - 1) as usize } else { (sel - 1) as usize }
}

/// The next position, wrapping to the first.
pub open spec fn next_index(sel: usize, len: nat) -> usize {
    if sel + 1 >= len { 0 } else { (sel + 1) as usize }
}

/// Whether the key is `h` or Left.
pub open spec fn is_left_key(b: Seq<u8>) -> bool {
    b == seq![0x68u8] || b == seq![0x1bu8, 0x5bu8, 0x44u8]
}

/// Whether the key is `l` or Right.
pub open spec fn is_right_key(b: Seq<u8>) -> bool {
    b == seq![0x6cu8] || b == seq![0x1bu8, 0x5bu8, 0x43u8]
}

/// Whether what a key asked for is the file the model asks to load.
pub open spec fn input_matches(r: PlotInput, load: Option<Seq<char>>) -> bool {
    match r {
        PlotInput::Load(p) => load == Some(p@),
        PlotInput::Nothing => load is None,
        PlotInput::Rescan => false,
    }
}

/// The first position of `x` in `s` (meaningful when `s` holds it).
pub open spec fn first_position(s: Seq<Seq<char>>, x: Seq<char>) -> int {
    choose|i: int| 0 <= i < s.len() && s[i] == x && forall|j: int| 0 <= j < i ==> s[j] != x
}

/// Where a selection goes when the files change: the same file when it is
/// still there (its first position), else the last file (0 without files);
/// the first file when nothing was selected before.
pub open spec fn reselect(old_files: Seq<Seq<char>>, old_sel: int, new_files: Seq<Seq<char>>) -> int {
    if old_files.len() == 0 {
        0
    } else if new_files.contains(old_files[old_sel]) {
        first_position(new_files, old_files[old_sel])
    } else if new_files.len() > 0 {
        new_files.len() - 1
    } else {
        0
    }
}

impl PlotPane {
    /// The selection is a file, or 0 when there are none.
    pub open spec fn wf(&self) -> bool {
        &&& if self@.files.len() == 0 {
            self@.selected_index == 0
        } else {
            self@.selected_index < self@.files.len()
        }
        &&& texts_sorted(self@.files)
    }

    /// A viewer of `directory` with nothing scanned yet; `now` is the time in milliseconds.
    pub fn new(directory: String, now: u64) -> (r: Self)
        ensures
            r@.directory == directory@,
            r@.last_scan_time == now,
            r@.files.len() == 0,
            r@.selected_index == 0,
            !r@.load_in_progress,
            r@.loaded_index is None,
            !r@.has_image,
            r@.status_text is None,
            r.wf(),
    {
        let r = PlotPane {
            directory,
            last_scan_time: now,
            files: Vec::new(),
            selected_index: 0,
            load_in_progress: false,
            loaded_index: None,
            has_image: false,
            status_text: None,
        };
        assert(texts(r.files@) =~= Seq::empty());
        r
    }

    /// The directory watched.
    pub fn directory(&self) -> (r: &str)
        ensures
            r@ == self@.directory,
    {
        self.directory.as_str()
    }

    /// The images found, in order.
    pub fn file_count(&self) -> (r: usize)
        ensures
            r == self@.files.len(),
    {
        self.files.len()
    }

    /// The selected image's position.
    pub fn selected(&self) -> (r: usize)
        ensures
            r == self@.selected_index,
    {
        self.selected_index
    }

    /// Whether an image is ready to draw.
    pub fn has_image(&self) -> (r: bool)
        ensures
            r == self@.has_image,
    {
        self.has_image
    }

    /// The status message, if any.
    pub fn status(&self) -> (r: Option<&str>)
        ensures
            match r {
                Some(s) => self@.status_text == Some(s@),
                None => self@.status_text is None,
            },
    {
        match &self.status_text {
            Some(s) => Some(s.as_str()),
            None => None,
        }
    }

    /// Asks for the selected image unless it is shown or a load runs;
    /// returns the file to load.
    pub fn load_current(&mut self) -> (r: Option<String>)
        requires
            old(self).wf(),
        ensures
            final(self)@ == load_step(old(self)@).0,
            match r {
                Some(f) => load_step(old(self)@).1 == Some(f@),
                None => load_step(old(self)@).1 is None,
            },
            final(self).wf(),
    {
        if self.files.len() == 0 {
            self.has_image = false;
            self.loaded_index = None;
            return None;
        }
        if self.load_in_progress {
            return None;
        }
        if self.loaded_index == Some(self.selected_index) && self.has_image {
            return None;
        }
        let path = self.files[self.selected_index].clone();
        self.load_in_progress = true;
        self.has_image = false;
        self.status_text = Some(owned("Loading..."));
        Some(path)
    }

    /// Takes a scan of the directory (`None` when it cannot be read): the
    /// images become the files, ordered by path, the first is selected and
    /// asked for.
    pub fn scan(&mut self, listing: Option<Vec<String>>) -> (r: Option<String>)
        ensures
            final(self).wf(),
            texts_sorted(final(self)@.files),
            final(self)@.files.to_multiset() == (match listing {
                Some(l) => images_of(texts(l@)),
                None => Seq::empty(),
            }).to_multiset(),
            ({
                let step = load_step(PlotView {
                    files: final(self)@.files,
                    selected_index: 0,
                    loaded_index: None,
                    has_image: false,
                    load_in_progress: false,
                    status_text: if listing is None {
                        Some("Plot directory not found"@)
                    } else {
                        old(self)@.status_text
                    },
                    ..old(self)@
                });
                &&& final(self)@ == step.0
                &&& match r {
                    Some(f) => step.1 == Some(f@),
                    None => step.1 is None,
                }
            }),
    {
        match listing {
            Some(l) => {
                self.files = image_files(&l);
            },
            None => {
                self.status_text = Some(owned("Plot directory not found"));
                self.files = Vec::new();
                assert(texts(self.files@) =~= Seq::empty());
            },
        }
        self.selected_index = 0;
        self.loaded_index = None;
        self.has_image = false;
        self.load_in_progress = false;
        if self.files.len() > 0 {
            self.load_current()
        } else {
            None
        }
    }

    /// Takes what the image loader reported.
    pub fn check_loads(&mut self, ev: LoadEvent)
        requires
            old(self).wf(),
        ensures
            final(self).wf(),
            final(self)@ == (match ev {
                LoadEvent::Loaded => PlotView {
                    has_image: true,
                    loaded_index: Some(old(self)@.selected_index),
                    load_in_progress: false,
                    status_text: None,
                    ..old(self)@
                },
                LoadEvent::Failed(m) => PlotView {
                    status_text: Some(m@),
                    load_in_progress: false,
                    ..old(self)@
                },
                LoadEvent::Disconnected => PlotView {
                    status_text: Some("Load process failed"@),
                    load_in_progress: false,
                    ..old(self)@
                },
            }),
    {
        match ev {
            LoadEvent::Loaded => {
                self.has_image = true;
                self.loaded_index = Some(self.selected_index);
                self.load_in_progress = false;
                self.status_text = None;
            },
            LoadEvent::Failed(m) => {
                self.status_text = Some(m);
                self.load_in_progress = false;
            },
            LoadEvent::Disconnected => {
                self.status_text = Some(owned("Load process failed"));
                self.load_in_progress = false;
            },
        }
    }

    /// Whether a rescan is due (half a second after the last); when it is,
    /// `now` becomes the time of the last scan.
    pub fn begin_rescan(&mut self, now: u64) -> (r: bool)
        ensures
            r == (now >= old(self)@.last_scan_time && now - old(self)@.last_scan_time >= 500),
            r ==> final(self)@ == (PlotView { last_scan_time: now, ..old(self)@ }),
            !r ==> final(self)@ == old(self)@,
    {
        if now < self.last_scan_time || now - self.last_scan_time < 500 {
            return false;
        }
        self.last_scan_time = now;
        true
    }

    /// Whether a fresh listing of the directory changes the images held: the
    /// images it names differ from the files held (as collections).
    pub fn needs_relist(&self, listing: &Vec<String>) -> (r: bool)
        requires
            self.wf(),
        ensures
            r == (self@.files.to_multiset() != images_of(texts(listing@)).to_multiset()),
    {
        let found = image_files(listing);
        let ghost held = self@.files;
        let ghost fresh = texts(found@);
        if found.len() != self.files.len() {
            proof {
                fresh.to_multiset_ensures();
                held.to_multiset_ensures();
            }
            return true;
        }
        let mut i: usize = 0;
        while i < found.len()
            invariant
                i <= found@.len(),
                found@.len() == self.files@.len(),
                held == self@.files,
                held == texts(self.files@),
                fresh == texts(found@),
                texts_sorted(held),
                texts_sorted(fresh),
                fresh.to_multiset() == images_of(texts(listing@)).to_multiset(),
                forall|j: int| 0 <= j < i ==> fresh[j] == held[j],
            decreases found@.len() - i,
        {
            if !crate::text::chars_eq(&chars_of(found[i].as_str()), &chars_of(self.files[i].as_str())) {
                proof {
                    if held.to_multiset() == fresh.to_multiset() {
                        lemma_sorted_unique(held, fresh);
                        assert(fresh[i as int] == held[i as int]);
                    }
                }
                return true;
            }
            i = i + 1;
        }
        assert(fresh =~= held);
        false
    }

    /// Applies a rescan. A directory gone while images were held clears
    /// them. When the directory exists and `listing` holds its fresh listing
    /// (given when [`needs_relist`](Self::needs_relist) said so), the images
    /// are replaced, the same file stays selected if it is still there (else
    /// the last one), and the selected image is asked for.
    pub fn apply_rescan(&mut self, dir_exists: bool, listing: Option<Vec<String>>) -> (r: Option<String>)
        requires
            old(self).wf(),
        ensures
            final(self).wf(),
            final(self)@.directory == old(self)@.directory,
            final(self)@.last_scan_time == old(self)@.last_scan_time,
            !dir_exists && old(self)@.files.len() > 0 ==> r is None && final(self)@ == (PlotView {
                files: Seq::empty(),
                selected_index: 0,
                loaded_index: None,
                has_image: false,
                status_text: Some("Plot directory not found"@),
                ..old(self)@
            }),
            !dir_exists && old(self)@.files.len() == 0 ==> final(self)@ == old(self)@ && r is None,
            dir_exists && listing is None ==> final(self)@ == old(self)@ && r is None,
            dir_exists && listing is Some ==> texts_sorted(final(self)@.files),
            dir_exists && listing is Some ==> final(self)@.files.to_multiset() == images_of(
                texts(listing->0@),
            ).to_multiset(),
            dir_exists && listing is Some ==> {
                let step = load_step(PlotView {
                    files: final(self)@.files,
                    selected_index: reselect(
                        old(self)@.files,
                        old(self)@.selected_index as int,
                        final(self)@.files,
                    ) as usize,
                    loaded_index: None,
                    has_image: false,
                    ..old(self)@
                });
                &&& final(self)@ == step.0
                &&& match r {
                    Some(f) => step.1 == Some(f@),
                    None => step.1 is None,
                }
            },
    {
        if !dir_exists {
            if self.files.len() > 0 {
                self.files = Vec::new();
                assert(texts(self.files@) =~= Seq::empty());
                self.selected_index = 0;
                self.loaded_index = None;
                self.has_image = false;
                self.status_text = Some(owned("Plot directory not found"));
            }
            return None;
        }
        match listing {
            None => None,
            Some(l) => {
                let old_selected: Option<String> = if self.selected_index < self.files.len() {
                    Some(self.files[self.selected_index].clone())
                } else {
                    None
                };
                self.files = image_files(&l);
                if let Some(old) = old_selected {
                    match position_of_text(&self.files, old.as_str()) {
                        Some(k) => {
                            proof {
                                let fs = texts(self.files@);
                                let x = old@;
                                assert(fs[k as int] == x);
                                assert(fs.contains(x));
                                let c = first_position(fs, x);
                                assert(0 <= c < fs.len() && fs[c] == x && forall|j: int| 0 <= j < c ==> fs[j] != x);
                                if c < k {
                                    assert(fs[c] != x);
                                } else if c > k {
                                    assert(fs[k as int] != x);
                                }
                            }
                            self.selected_index = k;
                        },
                        None => {
                            self.selected_index = if self.files.len() > 0 { self.files.len() - 1 } else { 0 };
                        },
                    }
                } else {
                    self.selected_index = 0;
                }
                self.loaded_index = None;
                self.has_image = false;
                if self.files.len() > 0 {
                    self.load_current()
                } else {
                    None
                }
            },
        }
    }

    /// Keys when the viewer has focus: `r` rescans now, `h` or Left selects
    /// the previous image and `l` or Right the next (both wrap around) and
    /// ask for it. `now` is the time in milliseconds.
    pub fn write_input(&mut self, bytes: &[u8], now: u64) -> (r: PlotInput)
        requires
            old(self).wf(),
        ensures
            final(self).wf(),
            final(self)@.files == old(self)@.files,
            bytes@ == seq![0x72u8] ==> r is Rescan && final(self)@ == (PlotView {
                last_scan_time: if now >= 1000 { (now - 1000) as u64 } else { 0 },
                ..old(self)@
            }),
            is_left_key(bytes@) && old(self)@.files.len() > 0 ==> {
                let step = load_step(PlotView {
                    selected_index: prev_index(old(self)@.selected_index, old(self)@.files.len()),
                    ..old(self)@
                });
                final(self)@ == step.0 && input_matches(r, step.1)
            },
            is_right_key(bytes@) && old(self)@.files.len() > 0 ==> {
                let step = load_step(PlotView {
                    selected_index: next_index(old(self)@.selected_index, old(self)@.files.len()),
                    ..old(self)@
                });
                final(self)@ == step.0 && input_matches(r, step.1)
            },
            !(bytes@ == seq![0x72u8] || ((is_left_key(bytes@) || is_right_key(bytes@)) && old(self)@.files.len()
                > 0)) ==> final(self)@ == old(self)@ && r is Nothing,
    {
        proof {
            if bytes@.len() == 1 {
                assert(bytes@ =~= seq![bytes@[0]]);
            }
            if bytes@.len() == 3 {
                assert(bytes@ =~= seq![bytes@[0], bytes@[1], bytes@[2]]);
            }
        }
        if bytes.len() == 1 && bytes[0] == 0x72 {
            self.last_scan_time = if now >= 1000 { now - 1000 } else { 0 };
            return PlotInput::Rescan;
        }
        let left = (bytes.len() == 1 && bytes[0] == 0x68) || (bytes.len() == 3 && bytes[0] == 0x1b
            && bytes[1] == 0x5b && bytes[2] == 0x44);
        let right = (bytes.len() == 1 && bytes[0] == 0x6c) || (bytes.len() == 3 && bytes[0] == 0x1b
            && bytes[1] == 0x5b && bytes[2] == 0x43);
        if !(left || right) || self.files.len() == 0 {
            return PlotInput::Nothing;
        }
        if left {
            self.selected_index = if self.selected_index == 0 {
                self.files.len() - 1
            } else {
                self.selected_index - 1
            };
        } else {
            self.selected_index = if self.selected_index + 1 >= self.files.len() {
                0
            } else {
                self.selected_index + 1
            };
        }
        match self.load_current() {
            Some(p) => PlotInput::Load(p),
            None => PlotInput::Nothing,
        }
    }

    /// The image backend changed: the shown image is dropped and the
    /// selected one asked for again.
    pub fn reset_image(&mut self) -> (r: Option<String>)
        requires
            old(self).wf(),
        ensures
            final(self).wf(),
            ({
                let step = load_step(PlotView { loaded_index: None, has_image: false, ..old(self)@ });
                &&& final(self)@ == step.0
                &&& match r {
                    Some(f) => step.1 == Some(f@),
                    None => step.1 is None,
                }
            }),
    {
        self.loaded_index = None;
        self.has_image = false;
        if self.files.len() > 0 {
            self.load_current()
        } else {
            None
        }
    }
}

} // verus!
