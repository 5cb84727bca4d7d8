//! Un insieme di codici specie, mantenuto come elenco senza doppioni:
//! serve ai motori per deduplicare le specie campionate e contarle.

use vstd::prelude::*;

verus! {

/// Le viste dei codici di un elenco di stringhe.
pub open spec fn viste(v: Seq<String>) -> Seq<Seq<char>> {
    v.map_values(|s: String| s@)
}

/// Un insieme di codici specie. Il suo contenuto astratto e l'insieme
/// delle viste dei codici inseriti.
pub struct InsiemeSpecie {
    pub elenco: Vec<String>,
}

impl InsiemeSpecie {
    /// Il contenuto astratto dell'insieme.
    pub open spec fn ids(self) -> Set<Seq<char>> {
        viste(self.elenco@).to_set()
    }

    /// L'elenco interno non ripete alcun codice.
    pub open spec fn wf(self) -> bool {
        viste(self.elenco@).no_duplicates()
    }

    /// L'insieme vuoto.
    pub fn new() -> (r: InsiemeSpecie)
        ensures
            r.wf(),
            r.ids() =~= Set::<Seq<char>>::empty(),
    {
        let r = InsiemeSpecie { elenco: Vec::new() };
        proof {
            assert(viste(r.elenco@) =~= Seq::<Seq<char>>::empty());
        }
        r
    }

    /// Dice se il codice e gia nell'insieme.
    pub fn contiene(&self, id: &String) -> (r: bool)
        ensures
            r == self.ids().contains(id@),
    {
        let mut k: usize = 0;
        while k < self.elenco.len()
            invariant
                0 <= k <= self.elenco@.len(),
                forall|j: int| 0 <= j < k ==> viste(self.elenco@)[j] != id@,
            decreases self.elenco@.len() - k,
        {
            if self.elenco[k].eq(id) {
                proof {
                    assert(viste(self.elenco@)[k as int] == id@);
                    assert(viste(self.elenco@).contains(id@));
                }
                return true;
            }
            k = k + 1;
        }
        proof {
            assert(forall|j: int| 0 <= j < viste(self.elenco@).len() ==> viste(self.elenco@)[j]
                != id@);
            if viste(self.elenco@).contains(id@) {
                let j = choose|j: int|
                    0 <= j < viste(self.elenco@).len() && viste(self.elenco@)[j] == id@;
                assert(false);
            }
        }
        false
    }

    /// Aggiunge un codice che non c'e ancora.
    pub fn inserisci(&mut self, id: &String)
        requires
            old(self).wf(),
            !old(self).ids().contains(id@),
        ensures
            final(self).wf(),
            final(self).ids() =~= old(self).ids().insert(id@),
    {
        self.elenco.push(id.clone());
        proof {
            assert(viste(self.elenco@) =~= viste(old(self).elenco@).push(id@));
            assert(viste(old(self).elenco@).push(id@).drop_last() =~= viste(old(self).elenco@));
            assert forall|j: int|
                0 <= j < viste(old(self).elenco@).len() implies viste(old(self).elenco@)[j]
                != id@ by {
                if viste(old(self).elenco@)[j] == id@ {
                    assert(viste(old(self).elenco@).contains(id@));
                }
            }
            assert(viste(self.elenco@).no_duplicates());
            assert forall|x: Seq<char>| viste(self.elenco@).to_set().contains(x) implies viste(
                old(self).elenco@,
            ).to_set().insert(id@).contains(x) by {
                let j = choose|j: int|
                    0 <= j < viste(self.elenco@).len() && viste(self.elenco@)[j] == x;
                if j < viste(old(self).elenco@).len() {
                    assert(viste(old(self).elenco@).contains(x));
                }
            }
            assert forall|x: Seq<char>|
                viste(old(self).elenco@).to_set().insert(id@).contains(x) implies viste(
                self.elenco@,
            ).to_set().contains(x) by {
                if x == id@ {
                    assert(viste(self.elenco@).last() == id@);
                    assert(viste(self.elenco@).contains(x));
                } else {
                    let j = choose|j: int|
                        0 <= j < viste(old(self).elenco@).len() && viste(old(self).elenco@)[j]
                            == x;
                    assert(viste(self.elenco@)[j] == x);
                    assert(viste(self.elenco@).contains(x));
                }
            }
        }
    }

    /// Quanti codici distinti contiene l'insieme.
    pub fn quanti(&self) -> (r: usize)
        requires
            self.wf(),
        ensures
            r == self.ids().len(),
    {
        proof {
            viste(self.elenco@).unique_seq_to_set();
        }
        self.elenco.len()
    }
}

} // verus!
