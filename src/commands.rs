use vstd::prelude::*;

verus! {

/// Why a command could not be added to the table.
#[derive(Debug, Clone, Copy, PartialEq, Eq, Structural)]
pub enum RegisterError {
    /// A command of that name is already in the table.
    Duplicate,
}

/// The commands that the front end may invoke, by name, in the order in
/// which they were registered. No name occurs twice.
pub struct CommandTable {
    names: Vec<String>,
}

/// The names of `s`, each as a sequence of characters.
pub open spec fn name_views(s: Seq<String>) -> Seq<Seq<char>> {
    s.map_values(|n: String| n@)
}

/// No name occurs twice in `s`.
pub open spec fn all_distinct(s: Seq<Seq<char>>) -> bool {
    forall|i: int, j: int| 0 <= i < j < s.len() ==> s[i] != s[j]
}

impl View for CommandTable {
    type V = Seq<Seq<char>>;

    closed spec fn view(&self) -> Seq<Seq<char>> {
        name_views(self.names@)
    }
}

impl CommandTable {
    pub open spec fn wf(&self) -> bool {
        all_distinct(self@)
    }

    /// A table with no command in it.
    pub fn new() -> (t: CommandTable)
        ensures
            t.wf(),
            t@ == Seq::<Seq<char>>::empty(),
    {
        let t = CommandTable { names: Vec::new() };
        assert(t@ =~= Seq::<Seq<char>>::empty());
        t
    }

    /// How many commands the table holds.
    pub fn len(&self) -> (n: usize)
        ensures
            n == self@.len(),
    {
        self.names.len()
    }

    /// Whether a command named `name` is in the table.
    pub fn contains(&self, name: &str) -> (r: bool)
        ensures
            r == self@.contains(name@),
    {
        let key: String = name.to_owned();
        let mut i: usize = 0;
        while i < self.names.len()
            invariant
                i <= self.names@.len(),
                key@ == name@,
                forall|k: int| 0 <= k < i ==> self@[k] != name@,
            decreases self.names@.len() - i,
        {
            if self.names[i] == key {
                assert(self@[i as int] == name@);
                return true;
            }
            i = i + 1;
        }
        false
    }

    /// Adds the command `name` at the end of the table, or refuses it,
    /// leaving the table as it was, when the name is already there.
    pub fn register(&mut self, name: String) -> (r: Result<(), RegisterError>)
        requires
            old(self).wf(),
        ensures
            final(self).wf(),
            r is Err <==> old(self)@.contains(name@),
            r is Ok ==> final(self)@ == old(self)@.push(name@),
            r is Err ==> final(self)@ == old(self)@,
    {
        if self.contains(name.as_str()) {
            return Err(RegisterError::Duplicate);
        }
        let ghost before = self@;
        self.names.push(name);
        assert(self@ =~= before.push(name@));
        Ok(())
    }

    /// A table holding `names` in order; refused when a name occurs twice.
    pub fn build(names: &Vec<String>) -> (r: Result<CommandTable, RegisterError>)
        ensures
            r is Ok <==> all_distinct(name_views(names@)),
            r matches Ok(t) ==> t.wf() && t@ == name_views(names@),
    {
        let ghost all = name_views(names@);
        let mut t = CommandTable::new();
        let mut i: usize = 0;
        while i < names.len()
            invariant
                i <= names@.len(),
                all == name_views(names@),
                t.wf(),
                t@ == all.subrange(0, i as int),
            decreases names@.len() - i,
        {
            let ghost before = t@;
            match t.register(names[i].clone()) {
                Ok(()) => {},
                Err(e) => {
                    proof {
                        let k = choose|k: int| 0 <= k < before.len() && before[k] == all[i as int];
                        assert(all[k] == all[i as int]);
                    }
                    return Err(e);
                },
            }
            assert(t@ =~= all.subrange(0, i + 1));
            i = i + 1;
        }
        assert(t@ =~= all);
        Ok(t)
    }
}

} // verus!
