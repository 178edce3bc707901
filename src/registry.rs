use vstd::prelude::*;
use crate::mode::Mode;
use crate::status::{profiles_view, Profile};

verus! {

/// The mathematical value of a registry: its profiles in display order and
/// the selected position.
pub struct RegistryModel {
    pub profiles: Seq<(Seq<char>, Mode)>,
    pub selected: Option<nat>,
}

impl RegistryModel {
    /// The selection, if any, points into the list.
    pub open spec fn wf(self) -> bool {
        self.selected matches Some(i) ==> i < self.profiles.len()
    }

    /// The identifier of the selected profile, if any.
    pub open spec fn selected_id(self) -> Option<Seq<char>> {
        match self.selected {
            Some(i) => Some(self.profiles[i as int].0),
            None => None,
        }
    }
}

/// The first position in `ps` whose identifier is `id`.
pub open spec fn first_match(ps: Seq<(Seq<char>, Mode)>, id: Seq<char>) -> Option<nat>
    decreases ps.len(),
{
    if ps.len() == 0 {
        None
    } else if ps[0].0 == id {
        Some(0)
    } else {
        match first_match(ps.drop_first(), id) {
            Some(j) => Some(j + 1),
            None => None,
        }
    }
}

/// The registry after its list is replaced by `ps`: no selection if `ps` is
/// empty; else the profile that was selected, found by identifier, or the
/// first one where it is gone or nothing was selected.
pub open spec fn loaded(r: RegistryModel, ps: Seq<(Seq<char>, Mode)>) -> RegistryModel {
    RegistryModel {
        profiles: ps,
        selected: if ps.len() == 0 {
            None
        } else {
            match r.selected_id() {
                Some(id) => match first_match(ps, id) {
                    Some(j) => Some(j),
                    None => Some(0),
                },
                None => Some(0),
            }
        },
    }
}

/// The selection after moving down one row in a list of `n`, wrapping round.
pub open spec fn next_index(sel: Option<nat>, n: nat) -> Option<nat> {
    if n == 0 {
        None
    } else {
        match sel {
            Some(i) => if i + 1 >= n { Some(0) } else { Some((i + 1) as nat) },
            None => Some(0),
        }
    }
}

/// The selection after moving up one row in a list of `n`, wrapping round.
pub open spec fn previous_index(sel: Option<nat>, n: nat) -> Option<nat> {
    if n == 0 {
        None
    } else {
        match sel {
            Some(i) => if i == 0 || i >= n { Some((n - 1) as nat) } else { Some((i - 1) as nat) },
            None => Some(0),
        }
    }
}

proof fn lemma_first_match_found(ps: Seq<(Seq<char>, Mode)>, id: Seq<char>, k: int)
    requires
        0 <= k < ps.len(),
        ps[k].0 == id,
        forall|t: int| 0 <= t < k ==> ps[t].0 != id,
    ensures
        first_match(ps, id) == Some(k as nat),
    decreases k,
{
    if k > 0 {
        lemma_first_match_found(ps.drop_first(), id, k - 1);
    }
}

proof fn lemma_first_match_absent(ps: Seq<(Seq<char>, Mode)>, id: Seq<char>)
    requires
        forall|t: int| 0 <= t < ps.len() ==> ps[t].0 != id,
    ensures
        first_match(ps, id) is None,
    decreases ps.len(),
{
    if ps.len() > 0 {
        lemma_first_match_absent(ps.drop_first(), id);
    }
}

/// The profiles on display and the operator's selection among them.
pub struct Registry {
    profiles: Vec<Profile>,
    selected: Option<usize>,
}

impl View for Registry {
    type V = RegistryModel;

    closed spec fn view(&self) -> RegistryModel {
        RegistryModel {
            profiles: profiles_view(self.profiles@),
            selected: match self.selected {
                Some(i) => Some(i as nat),
                None => None,
            },
        }
    }
}

impl Registry {
    /// An empty registry with nothing selected.
    pub fn new() -> (r: Registry)
        ensures
            r@.profiles == Seq::<(Seq<char>, Mode)>::empty(),
            r@.selected is None,
            r@.wf(),
    {
        let r = Registry { profiles: Vec::new(), selected: None };
        assert(r@.profiles =~= Seq::<(Seq<char>, Mode)>::empty());
        r
    }

    /// Number of profiles held.
    pub fn len(&self) -> (r: usize)
        ensures
            r == self@.profiles.len(),
    {
        self.profiles.len()
    }

    /// Whether no profile is held.
    pub fn is_empty(&self) -> (r: bool)
        ensures
            r == (self@.profiles.len() == 0),
    {
        self.profiles.len() == 0
    }

    /// The profiles in display order.
    pub fn profiles(&self) -> (r: &Vec<Profile>)
        ensures
            profiles_view(r@) == self@.profiles,
    {
        &self.profiles
    }

    /// The selected position, if any.
    pub fn selected(&self) -> (r: Option<usize>)
        ensures
            match r {
                Some(i) => self@.selected == Some(i as nat),
                None => self@.selected is None,
            },
    {
        self.selected
    }

    /// The selected profile, if any.
    pub fn current(&self) -> (r: Option<&Profile>)
        requires
            self@.wf(),
        ensures
            match r {
                Some(p) => self@.selected matches Some(i) && p@ == self@.profiles[i as int],
                None => self@.selected is None,
            },
    {
        match self.selected {
            Some(i) => Some(&self.profiles[i]),
            None => None,
        }
    }

    /// Replaces the whole list by `ps`, keeping the selected profile selected
    /// where `ps` still lists its identifier.
    pub fn load(&mut self, ps: Vec<Profile>)
        requires
            old(self)@.wf(),
        ensures
            final(self)@ == loaded(old(self)@, profiles_view(ps@)),
            final(self)@.wf(),
    {
        let ghost prior = self@;
        let ghost pv = profiles_view(ps@);
        let n = ps.len();
        let mut sel: Option<usize> = None;
        if n > 0 {
            sel = Some(0);
            if let Some(i) = self.selected {
                let id = &self.profiles[i].identifier;
                let mut k: usize = 0;
                while k < n
                    invariant
                        n == ps.len(),
                        pv == profiles_view(ps@),
                        k <= n,
                        forall|t: int| 0 <= t < k ==> pv[t].0 != id@,
                    ensures
                        k < n ==> pv[k as int].0 == id@,
                        forall|t: int| 0 <= t < k ==> pv[t].0 != id@,
                    decreases n - k,
                {
                    if ps[k].identifier == *id {
                        break;
                    }
                    k = k + 1;
                }
                proof {
                    if k < n {
                        lemma_first_match_found(pv, id@, k as int);
                    } else {
                        lemma_first_match_absent(pv, id@);
                    }
                }
                if k < n {
                    sel = Some(k);
                }
            }
        }
        self.profiles = ps;
        self.selected = sel;
        assert(self@ == loaded(prior, pv));
    }

    /// Moves the selection down one row, from the last row to the first.
    pub fn select_next(&mut self)
        requires
            old(self)@.wf(),
        ensures
            final(self)@.profiles == old(self)@.profiles,
            final(self)@.selected == next_index(old(self)@.selected, old(self)@.profiles.len()),
            final(self)@.wf(),
    {
        let n = self.profiles.len();
        if n == 0 {
            self.selected = None;
            return;
        }
        self.selected = match self.selected {
            Some(i) => if i + 1 >= n { Some(0) } else { Some(i + 1) },
            None => Some(0),
        };
    }

    /// Moves the selection up one row, from the first row to the last.
    pub fn select_previous(&mut self)
        requires
            old(self)@.wf(),
        ensures
            final(self)@.profiles == old(self)@.profiles,
            final(self)@.selected == previous_index(old(self)@.selected, old(self)@.profiles.len()),
            final(self)@.wf(),
    {
        let n = self.profiles.len();
        if n == 0 {
            self.selected = None;
            return;
        }
        self.selected = match self.selected {
            Some(i) => if i == 0 || i >= n { Some(n - 1) } else { Some(i - 1) },
            None => Some(0),
        };
    }
}

} // verus!
