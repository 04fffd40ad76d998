use vstd::prelude::*;
use crate::text::same_text;

verus! {

/// A command that can be called: its handler runs when its name is entered as a line.
pub struct Command<H> {
    pub name: String,
    pub help_text: String,
    pub handler: H,
}

/// The registered commands, keyed by name; registering a name again replaces its entry.
pub struct Registry<H> {
    commands: Vec<Command<H>>,
    model: Ghost<Map<Seq<char>, (Seq<char>, H)>>,
}

impl<H> View for Registry<H> {
    /// Each registered name, with its help text and handler.
    type V = Map<Seq<char>, (Seq<char>, H)>;

    closed spec fn view(&self) -> Self::V {
        self.model@
    }
}

impl<H> Registry<H> {
    /// The commands as (name, help text), in the order their names were first registered.
    pub closed spec fn listing(&self) -> Seq<(Seq<char>, Seq<char>)> {
        self.commands@.map_values(|c: Command<H>| (c.name@, c.help_text@))
    }

    /// Names are distinct, and the model maps each name to its entry's help text and handler.
    pub closed spec fn wf(&self) -> bool {
        &&& forall|i: int, j: int|
            0 <= i < j < self.commands@.len() ==> self.commands@[i].name@
                != self.commands@[j].name@
        &&& forall|i: int|
            0 <= i < self.commands@.len() ==> {
                let c = #[trigger] self.commands@[i];
                &&& self.model@.contains_key(c.name@)
                &&& self.model@[c.name@] == (c.help_text@, c.handler)
            }
        &&& forall|k: Seq<char>|
            #[trigger] self.model@.contains_key(k) ==> exists|i: int|
                0 <= i < self.commands@.len() && #[trigger] self.commands@[i].name@ == k
    }

    /// An empty registry.
    pub fn new() -> (r: Self)
        ensures
            r.wf(),
            r@ == Map::<Seq<char>, (Seq<char>, H)>::empty(),
            r.listing() == Seq::<(Seq<char>, Seq<char>)>::empty(),
    {
        let r = Registry { commands: Vec::new(), model: Ghost(Map::empty()) };
        proof {
            assert(r.listing() =~= Seq::<(Seq<char>, Seq<char>)>::empty());
        }
        r
    }

    /// The position of the command called `name`, if one is registered.
    fn position(&self, name: &str) -> (r: Option<usize>)
        requires
            self.wf(),
        ensures
            r is Some <==> self@.contains_key(name@),
            r matches Some(i) ==> i < self.commands@.len() && self.commands@[i as int].name@
                == name@,
    {
        let mut i: usize = 0;
        while i < self.commands.len()
            invariant
                self.wf(),
                0 <= i <= self.commands@.len(),
                forall|j: int| 0 <= j < i ==> self.commands@[j].name@ != name@,
            decreases self.commands@.len() - i,
        {
            if same_text(self.commands[i].name.as_str(), name) {
                return Some(i);
            }
            i = i + 1;
        }
        None
    }

    /// Registers `handler` under `name`, replacing any entry that the name had.
    pub fn register(&mut self, name: &str, help_text: &str, handler: H)
        requires
            old(self).wf(),
        ensures
            final(self).wf(),
            final(self)@ == old(self)@.insert(name@, (help_text@, handler)),
            old(self)@.contains_key(name@) ==> final(self).listing().len() == old(self).listing().len(),
            !old(self)@.contains_key(name@) ==> final(self).listing() == old(self).listing().push(
                (name@, help_text@),
            ),
    {
        let ghost new_model = self.model@.insert(name@, (help_text@, handler));
        let c = Command { name: name.to_owned(), help_text: help_text.to_owned(), handler };
        match self.position(name) {
            Some(i) => {
                self.commands.set(i, c);
            },
            None => {
                self.commands.push(c);
                proof {
                    assert(self.listing() =~= old(self).listing().push((name@, help_text@)));
                }
            },
        }
        self.model = Ghost(new_model);
        proof {
            assert forall|k: Seq<char>| #[trigger] self.model@.contains_key(k) implies exists|i: int|
                0 <= i < self.commands@.len() && #[trigger] self.commands@[i].name@ == k by {
                if k != name@ {
                    let j = choose|j: int|
                        0 <= j < old(self).commands@.len() && #[trigger] old(self).commands@[j].name@ == k;
                    assert(self.commands@[j].name@ == k);
                } else {
                    let j = if self.commands@.len() > old(self).commands@.len() {
                        old(self).commands@.len() as int
                    } else {
                        choose|j: int|
                            0 <= j < old(self).commands@.len() && #[trigger] old(self).commands@[j].name@ == k
                    };
                    assert(self.commands@[j].name@ == k);
                }
            }
        }
    }

    /// The command called `name`, if one is registered.
    pub fn lookup(&self, name: &str) -> (r: Option<&Command<H>>)
        requires
            self.wf(),
        ensures
            r is Some <==> self@.contains_key(name@),
            r matches Some(c) ==> c.name@ == name@ && self@[name@] == (c.help_text@, c.handler),
    {
        match self.position(name) {
            Some(i) => Some(&self.commands[i]),
            None => None,
        }
    }

    /// How many commands are registered.
    pub fn len(&self) -> (r: usize)
        ensures
            r == self.listing().len(),
    {
        self.commands.len()
    }

    /// The command at position `i` of the listing.
    pub fn entry(&self, i: usize) -> (r: &Command<H>)
        requires
            i < self.listing().len(),
        ensures
            (r.name@, r.help_text@) == self.listing()[i as int],
    {
        &self.commands[i]
    }

    /// The listing names every registered command once, with its help text.
    pub proof fn lemma_listing_matches(&self)
        requires
            self.wf(),
        ensures
            forall|i: int, j: int|
                0 <= i < j < self.listing().len() ==> self.listing()[i].0 != self.listing()[j].0,
            forall|i: int|
                0 <= i < self.listing().len() ==> self@.contains_key(#[trigger] self.listing()[i].0)
                    && self@[self.listing()[i].0].0 == self.listing()[i].1,
            forall|k: Seq<char>|
                #[trigger] self@.contains_key(k) ==> exists|i: int|
                    0 <= i < self.listing().len() && #[trigger] self.listing()[i].0 == k,
    {
        assert forall|k: Seq<char>| #[trigger] self@.contains_key(k) implies exists|i: int|
            0 <= i < self.listing().len() && #[trigger] self.listing()[i].0 == k by {
            let i = choose|i: int| 0 <= i < self.commands@.len() && #[trigger] self.commands@[i].name@ == k;
            assert(self.listing()[i].0 == k);
        }
        assert forall|i: int|
            0 <= i < self.listing().len() implies self@.contains_key(#[trigger] self.listing()[i].0)
                && self@[self.listing()[i].0].0 == self.listing()[i].1 by {
            assert(self.commands@[i].name@ == self.listing()[i].0);
        }
    }
}

} // verus!
