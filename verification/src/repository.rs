//! Profile storage: the repository interface, an in-memory store that
//! implements it, and the naming rules by which profiles are derived
//! from connection files in a configuration directory.

use vstd::prelude::*;
use vstd::string::StringExecFns;
use crate::entities::default_status_view;
use crate::entities::Vpn;
use crate::entities::VpnView;
use crate::text::spec_ends_with;
use crate::text::str_eq;
use crate::text::str_ends_with_suffix;
use crate::text::strip_suffix_all;
use crate::text::strip_suffix_all_str;

verus! {

/// Index of the first profile in `vs` whose id is `id`.
pub open spec fn find_index(vs: Seq<VpnView>, id: Seq<char>) -> Option<int>
    decreases vs.len(),
{
    if vs.len() == 0 {
        None
    } else if vs[0].id == id {
        Some(0int)
    } else {
        match find_index(vs.drop_first(), id) {
            Some(i) => Some(i + 1),
            None => None,
        }
    }
}

/// The first profile in `vs` whose id is `id`.
pub open spec fn find_vpn(vs: Seq<VpnView>, id: Seq<char>) -> Option<VpnView> {
    match find_index(vs, id) {
        Some(i) => Some(vs[i]),
        None => None,
    }
}

/// `vs` with `v` stored: the first profile with the same id is
/// replaced, or `v` is appended when no profile has its id.
pub open spec fn spec_save(vs: Seq<VpnView>, v: VpnView) -> Seq<VpnView> {
    match find_index(vs, v.id) {
        Some(i) => vs.update(i, v),
        None => vs.push(v),
    }
}

/// No two profiles in `vs` share an id.
pub open spec fn unique_ids(vs: Seq<VpnView>) -> bool {
    forall|i: int, j: int| 0 <= i < j < vs.len() ==> vs[i].id != vs[j].id
}

/// A found index is in range, carries the id, and is the first to.
pub proof fn lemma_find_index_some(vs: Seq<VpnView>, id: Seq<char>, i: int)
    requires
        find_index(vs, id) == Some(i),
    ensures
        0 <= i < vs.len(),
        vs[i].id == id,
        forall|k: int| 0 <= k < i ==> vs[k].id != id,
    decreases vs.len(),
{
    if vs.len() != 0 && vs[0].id != id {
        match find_index(vs.drop_first(), id) {
            Some(j) => {
                lemma_find_index_some(vs.drop_first(), id, j);
                assert forall|k: int| 0 <= k < j + 1 implies vs[k].id != id by {
                    if k > 0 {
                        assert(vs.drop_first()[k - 1] == vs[k]);
                    }
                }
            },
            None => {},
        }
    }
}

/// When no index is found, no profile carries the id.
pub proof fn lemma_find_index_none(vs: Seq<VpnView>, id: Seq<char>)
    requires
        find_index(vs, id) is None,
    ensures
        forall|k: int| 0 <= k < vs.len() ==> vs[k].id != id,
    decreases vs.len(),
{
    if vs.len() != 0 {
        lemma_find_index_none(vs.drop_first(), id);
        assert forall|k: int| 0 <= k < vs.len() implies vs[k].id != id by {
            if k > 0 {
                assert(vs.drop_first()[k - 1] == vs[k]);
            }
        }
    }
}

/// The index scanned to is the one `find_index` yields.
pub proof fn lemma_find_index_at(vs: Seq<VpnView>, id: Seq<char>, i: int)
    requires
        0 <= i < vs.len(),
        vs[i].id == id,
        forall|k: int| 0 <= k < i ==> vs[k].id != id,
    ensures
        find_index(vs, id) == Some(i),
    decreases vs.len(),
{
    if vs[0].id == id {
        assert(i == 0);
    } else {
        assert forall|k: int| 0 <= k < i - 1 implies vs.drop_first()[k].id != id by {
            assert(vs.drop_first()[k] == vs[k + 1]);
        }
        assert(vs.drop_first()[i - 1] == vs[i]);
        lemma_find_index_at(vs.drop_first(), id, i - 1);
    }
}

/// When a full scan saw no profile with the id, `find_index` yields
/// none.
pub proof fn lemma_find_index_absent(vs: Seq<VpnView>, id: Seq<char>)
    requires
        forall|k: int| 0 <= k < vs.len() ==> vs[k].id != id,
    ensures
        find_index(vs, id) is None,
    decreases vs.len(),
{
    if vs.len() != 0 {
        assert forall|k: int| 0 <= k < vs.drop_first().len() implies vs.drop_first()[k].id
            != id by {
            assert(vs.drop_first()[k] == vs[k + 1]);
        }
        lemma_find_index_absent(vs.drop_first(), id);
    }
}

/// Storage for VPN profiles.  Implementations report their contents as
/// a sequence of profile views; a failure is reported as a message.
pub trait VpnRepository: Sized {
    /// The stored profiles, in listing order.
    spec fn vpns(&self) -> Seq<VpnView>;

    /// The first stored profile with the given id, if lookup succeeds.
    fn find_by_id(&self, id: &str) -> (r: Result<Option<Vpn>, String>)
        ensures
            r matches Ok(Some(v)) ==> find_vpn(self.vpns(), id@) == Some(v@),
            r matches Ok(None) ==> find_vpn(self.vpns(), id@) is None,
    ;

    /// Stores `vpn` under its id, replacing any profile that carries
    /// it; on failure the contents are unchanged.
    fn save(&mut self, vpn: &Vpn) -> (r: Result<(), String>)
        ensures
            r is Ok ==> final(self).vpns() == spec_save(old(self).vpns(), vpn@),
            r is Err ==> final(self).vpns() == old(self).vpns(),
    ;

    /// All stored profiles, in listing order, if listing succeeds.
    fn list_all(&self) -> (r: Result<Vec<Vpn>, String>)
        ensures
            r matches Ok(vs) ==> vs.deep_view() == self.vpns(),
    ;
}

/// An in-memory profile store with one profile per id.  It never
/// fails.
pub struct MemoryVpnRepository {
    vpns: Vec<Vpn>,
}

impl View for MemoryVpnRepository {
    type V = Seq<VpnView>;

    closed spec fn view(&self) -> Seq<VpnView> {
        self.vpns.deep_view()
    }
}

impl MemoryVpnRepository {
    /// Ids are unique, so a lookup's first match is its only match.
    #[verifier::type_invariant]
    spec fn wf(self) -> bool {
        unique_ids(self.vpns.deep_view())
    }

    pub fn new() -> (r: Self)
        ensures
            r@ == Seq::<VpnView>::empty(),
    {
        let r = MemoryVpnRepository { vpns: Vec::new() };
        proof {
            assert(r@ =~= Seq::<VpnView>::empty());
        }
        r
    }

    /// Index of the first stored profile with the given id.
    fn position_of(&self, id: &str) -> (r: Option<usize>)
        ensures
            r matches Some(i) ==> i < self@.len() && find_index(self@, id@) == Some(i as int),
            r is None ==> find_index(self@, id@) is None,
    {
        let mut i: usize = 0;
        while i < self.vpns.len()
            invariant
                i <= self@.len(),
                self@.len() == self.vpns.len(),
                forall|k: int| 0 <= k < i ==> self@[k].id != id@,
            decreases self@.len() - i,
        {
            if str_eq(self.vpns[i].id(), id) {
                proof {
                    lemma_find_index_at(self@, id@, i as int);
                }
                return Some(i);
            }
            i = i + 1;
        }
        proof {
            lemma_find_index_absent(self@, id@);
        }
        None
    }

    /// The first stored profile with the given id.
    pub fn lookup(&self, id: &str) -> (r: Option<Vpn>)
        ensures
            unique_ids(self@),
            r matches Some(v) ==> find_vpn(self@, id@) == Some(v@),
            r is None <==> find_vpn(self@, id@) is None,
    {
        proof {
            use_type_invariant(&*self);
        }
        match self.position_of(id) {
            Some(i) => Some(self.vpns[i].clone()),
            None => None,
        }
    }

    /// The stored profile values themselves, timestamps included.
    pub closed spec fn spec_elems(&self) -> Seq<Vpn> {
        self.vpns@
    }

    /// All stored profiles, in listing order.
    pub fn profiles(&self) -> (r: Vec<Vpn>)
        ensures
            unique_ids(self@),
            r.deep_view() == self@,
            r@ == self.spec_elems(),
    {
        proof {
            use_type_invariant(&*self);
        }
        let mut r: Vec<Vpn> = Vec::new();
        let mut i: usize = 0;
        while i < self.vpns.len()
            invariant
                i <= self.vpns.len(),
                r.deep_view() == self@.subrange(0, i as int),
                r@ == self.vpns@.subrange(0, i as int),
                self@.len() == self.vpns.len(),
            decreases self.vpns.len() - i,
        {
            let ghost prev = r.deep_view();
            let ghost prev_elems = r@;
            r.push(self.vpns[i].clone());
            proof {
                assert(r.deep_view() =~= prev.push(self@[i as int]));
                assert(self@.subrange(0, i + 1 as int) =~= prev.push(self@[i as int]));
                assert(r@ =~= prev_elems.push(self.vpns@[i as int]));
                assert(self.vpns@.subrange(0, i + 1 as int) =~= prev_elems.push(
                    self.vpns@[i as int],
                ));
            }
            i = i + 1;
        }
        proof {
            assert(r.deep_view() =~= self@);
            assert(r@ =~= self.vpns@);
        }
        r
    }

    /// Stores `vpn` under its id, replacing any profile that carries
    /// it.
    pub fn add_vpn(&mut self, vpn: Vpn)
        ensures
            final(self)@ == spec_save(old(self)@, vpn@),
    {
        proof {
            use_type_invariant(&*self);
        }
        let pos = self.position_of(vpn.id());
        let mut vpns: Vec<Vpn> = Vec::new();
        core::mem::swap(&mut vpns, &mut self.vpns);
        match pos {
            Some(i) => {
                proof {
                    lemma_find_index_some(old(self)@, vpn@.id, i as int);
                }
                vpns[i] = vpn;
                proof {
                    assert(vpns.deep_view() =~= old(self)@.update(i as int, vpn@));
                }
            },
            None => {
                vpns.push(vpn);
                proof {
                    assert(vpns.deep_view() =~= old(self)@.push(vpn@));
                }
            },
        }
        proof {
            lemma_save_preserves_unique(old(self)@, vpn@);
        }
        self.vpns = vpns;
    }
}

/// Storing a profile keeps ids unique.
proof fn lemma_save_preserves_unique(vs: Seq<VpnView>, v: VpnView)
    requires
        unique_ids(vs),
    ensures
        unique_ids(spec_save(vs, v)),
{
    match find_index(vs, v.id) {
        Some(i) => {
            lemma_find_index_some(vs, v.id, i);
            let vs2 = vs.update(i, v);
            assert forall|a: int, b: int| 0 <= a < b < vs2.len() implies vs2[a].id
                != vs2[b].id by {
                assert(vs[a].id != vs[b].id);
            }
        },
        None => {
            lemma_find_index_none(vs, v.id);
            let vs2 = vs.push(v);
            assert forall|a: int, b: int| 0 <= a < b < vs2.len() implies vs2[a].id
                != vs2[b].id by {
                if b < vs.len() {
                    assert(vs[a].id != vs[b].id);
                } else {
                    assert(vs2[b] == v);
                    assert(vs[a].id != v.id);
                }
            }
        },
    }
}

impl VpnRepository for MemoryVpnRepository {
    open spec fn vpns(&self) -> Seq<VpnView> {
        self@
    }

    fn find_by_id(&self, id: &str) -> (r: Result<Option<Vpn>, String>)
    {
        Ok(self.lookup(id))
    }

    fn save(&mut self, vpn: &Vpn) -> (r: Result<(), String>)
    {
        self.add_vpn(vpn.clone());
        Ok(())
    }

    fn list_all(&self) -> (r: Result<Vec<Vpn>, String>)
    {
        Ok(self.profiles())
    }
}

/// The display name a connection-file name maps to.  Known names carry
/// a stored label; anything else falls back to a sentinel.
pub open spec fn display_name_of(filename: Seq<char>) -> Seq<char> {
    if filename == "David_cruz.ovpn"@ {
        "Dynamic"@
    } else if filename == "julian.ovpn"@ {
        "Howden"@
    } else {
        "Unknown"@
    }
}

/// A file name that holds a connection profile: it carries the profile
/// extension behind a non-empty stem.
pub open spec fn is_profile_name(filename: Seq<char>) -> bool {
    spec_ends_with(filename, ".ovpn"@) && filename.len() > ".ovpn"@.len()
}

/// The profile built for `filename` found in `dir`.
pub open spec fn profile_entry(dir: Seq<char>, filename: Seq<char>) -> VpnView {
    VpnView {
        id: strip_suffix_all(filename, ".ovpn"@),
        display_name: display_name_of(filename),
        config_path: dir + "/"@ + filename,
        status: default_status_view(),
    }
}

/// The profiles that a directory listing yields, in listing order.
pub open spec fn dir_entries(dir: Seq<char>, filenames: Seq<Seq<char>>) -> Seq<VpnView>
    decreases filenames.len(),
{
    if filenames.len() == 0 {
        Seq::empty()
    } else {
        let rest = dir_entries(dir, filenames.drop_last());
        if is_profile_name(filenames.last()) {
            rest.push(profile_entry(dir, filenames.last()))
        } else {
            rest
        }
    }
}

/// Derives profiles from the connection files of one configuration
/// directory.  Reading the directory is the caller's part: it hands
/// the file names in here and checks a file's existence for `find`.
pub struct FileVpnRepository {
    config_dir: String,
}

impl View for FileVpnRepository {
    type V = Seq<char>;

    closed spec fn view(&self) -> Seq<char> {
        self.config_dir@
    }
}

impl FileVpnRepository {
    pub fn new(config_dir: String) -> (r: Self)
        ensures
            r@ == config_dir@,
    {
        FileVpnRepository { config_dir }
    }

    /// The display name for a connection-file name, as
    /// `display_name_of` says.
    pub fn map_display_name(filename: &str) -> (r: String)
        ensures
            r@ == display_name_of(filename@),
    {
        if str_eq(filename, "David_cruz.ovpn") {
            "Dynamic".to_owned()
        } else if str_eq(filename, "julian.ovpn") {
            "Howden".to_owned()
        } else {
            "Unknown".to_owned()
        }
    }

    /// The profile id for a connection-file name: the name with every
    /// trailing repetition of the profile extension removed.
    pub fn extract_id_from_filename(filename: &str) -> (r: String)
        ensures
            r@ == strip_suffix_all(filename@, ".ovpn"@),
    {
        proof {
            reveal_strlit(".ovpn");
        }
        strip_suffix_all_str(filename, ".ovpn")
    }

    /// The path under the configuration directory at which the profile
    /// with the given id keeps its connection file.
    pub fn config_path_for(&self, id: &str) -> (r: String)
        ensures
            r@ == self@ + "/"@ + id@ + ".ovpn"@,
    {
        let mut r = self.config_dir.clone();
        r.append("/");
        r.append(id);
        r.append(".ovpn");
        r
    }

    /// The profile that a lookup by id yields when its connection file
    /// exists.  The caller tests existence of `config_path_for(id)`
    /// and calls this only then.
    pub fn vpn_for_id(&self, id: &str) -> (r: Vpn)
        ensures
            r@ == profile_entry_for_id(self@, id@),
    {
        let mut filename = id.to_owned();
        filename.append(".ovpn");
        let display_name = Self::map_display_name(filename.as_str());
        let config_path = self.config_path_for(id);
        Vpn::new(id.to_owned(), display_name, config_path)
    }

    /// The profiles of this directory, given its file names, as
    /// `dir_entries` says.
    pub fn list_from_filenames(&self, filenames: &Vec<String>) -> (r: Vec<Vpn>)
        ensures
            r.deep_view() == dir_entries(self@, filenames.deep_view()),
    {
        let mut r: Vec<Vpn> = Vec::new();
        let mut i: usize = 0;
        proof {
            assert(filenames.deep_view().subrange(0, 0) =~= Seq::<Seq<char>>::empty());
        }
        while i < filenames.len()
            invariant
                i <= filenames.len(),
                filenames.deep_view().len() == filenames.len(),
                r.deep_view() == dir_entries(self@, filenames.deep_view().subrange(0, i as int)),
            decreases filenames.len() - i,
        {
            let filename: &str = filenames[i].as_str();
            proof {
                reveal_strlit(".ovpn");
            }
            if str_ends_with_suffix(filename, ".ovpn") && filename.unicode_len() > 5 {
                let id = Self::extract_id_from_filename(filename);
                let display_name = Self::map_display_name(filename);
                let mut config_path = self.config_dir.clone();
                config_path.append("/");
                config_path.append(filename);
                let vpn = Vpn::new(id, display_name, config_path);
                proof {
                    assert(vpn@ == profile_entry(self@, filename@));
                }
                r.push(vpn);
            }
            proof {
                let files = filenames.deep_view();
                assert(files.subrange(0, i + 1 as int).drop_last() =~= files.subrange(
                    0,
                    i as int,
                ));
                assert(files.subrange(0, i + 1 as int).last() == files[i as int]);
                assert(files[i as int] == filenames[i as int]@);
            }
            i = i + 1;
        }
        proof {
            assert(filenames.deep_view().subrange(0, filenames.deep_view().len() as int)
                =~= filenames.deep_view());
        }
        r
    }
}

/// The profile that a lookup by id yields: the connection-file name is
/// the id with the profile extension appended.
pub open spec fn profile_entry_for_id(dir: Seq<char>, id: Seq<char>) -> VpnView {
    VpnView {
        id: id,
        display_name: display_name_of(id + ".ovpn"@),
        config_path: dir + "/"@ + id + ".ovpn"@,
        status: default_status_view(),
    }
}

} // verus!
