//! The message and user handles that scripts see, as plain values.

use vstd::prelude::*;
use rand::Rng;
use crate::sandbox::{engine_functions, getter_name, register_fn1, register_fn2, register_get};
use crate::text::{contains, length, lowercase, starts_with, to_str, uppercase};

verus! {

/// The names of the functions that the library itself gives to every
/// script: the accessors of a message and of a user, and the functions on
/// strings.
pub open spec fn library_functions() -> Set<Seq<char>> {
    set![
        getter_name("content"@),
        getter_name("author"@),
        getter_name("id"@),
        getter_name("name"@),
        getter_name("avatar"@),
        getter_name("is_bot"@),
        getter_name("nick"@),
        "str"@,
        "starts_with"@,
        getter_name("uppercase"@),
        getter_name("lowercase"@),
        getter_name("length"@),
        "contains"@,
    ]
}

/// Gives `engine` the functions of the library: the accessors `content`,
/// `author` and `id` of a message; `id`, `name`, `avatar`, `is_bot` and
/// `nick` of a user; and `str`, `starts_with`, `contains`, `uppercase`,
/// `lowercase` and `length` on strings and numbers.
pub fn register_functionality(engine: &mut rhai::Engine)
    ensures
        engine_functions(*final(engine)) == engine_functions(*old(engine)).union(
            library_functions(),
        ),
{
    register_get(engine, "content", NeoMessage::content);
    register_get(engine, "author", NeoMessage::author);
    register_get(engine, "id", NeoMessage::id);
    register_get(engine, "id", NeoUser::id);
    register_get(engine, "name", NeoUser::name);
    register_get(engine, "avatar", NeoUser::avatar);
    register_get(engine, "is_bot", NeoUser::is_bot);
    register_get(engine, "nick", NeoUser::nick);
    register_fn1(engine, "str", to_str::<i64>);
    register_fn1(engine, "str", to_str::<bool>);
    register_fn2(engine, "starts_with", starts_with);
    register_get(engine, "uppercase", uppercase);
    register_get(engine, "lowercase", lowercase);
    register_get(engine, "length", length);
    register_fn2(engine, "contains", contains);
    assert(engine_functions(*engine) =~= engine_functions(*old(engine)).union(
        library_functions(),
    ));
}

/// A fresh engine for one script: the interpreter's own operators, and the
/// functions of the library.
pub fn sandbox() -> (engine: rhai::Engine)
    ensures
        library_functions().subset_of(engine_functions(engine)),
{
    let mut engine = rhai::Engine::new();
    register_functionality(&mut engine);
    engine
}

/// `rand::Rng::gen_range` on the generator of the thread: a number that is
/// at least `min` and less than `max`, drawn anew at every call. The
/// generator is seeded from the system at the first call on a thread, and
/// that fails where the system has no randomness to give.
#[verifier::external_body]
fn gen_range(min: i64, max: i64) -> (n: i64)
    requires
        min < max,
    ensures
        min <= n < max,
{
    rand::thread_rng().gen_range(min, max)
}

/// A random number that is at least `min` and less than `max`, where there
/// is such a number.
pub fn random(min: i64, max: i64) -> (n: Option<i64>)
    ensures
        n is Some <==> min < max,
        n matches Some(v) ==> min <= v < max,
{
    if min < max {
        Some(gen_range(min, max))
    } else {
        None
    }
}

/// A member of the chat, as a script sees one.
#[derive(Debug)]
pub struct NeoUser {
    pub id: u64,
    pub name: String,
    pub bot: bool,
    /// Where the user's picture is found.
    pub avatar: String,
    /// The name the user goes by in the community the message belongs to.
    pub nick: Option<String>,
}

impl Clone for NeoUser {
    fn clone(&self) -> (copy: Self)
        ensures
            copy == *self,
    {
        NeoUser {
            id: self.id,
            name: self.name.clone(),
            bot: self.bot,
            avatar: self.avatar.clone(),
            nick: match &self.nick {
                Some(nick) => Some(nick.clone()),
                None => None,
            },
        }
    }
}

impl NeoUser {
    /// Whether the user is called `name`, by user name or by nickname.
    pub open spec fn answers_to(self, name: Seq<char>) -> bool {
        self.name@ == name || (self.nick matches Some(nick) && nick@ == name)
    }

    /// The name the user shows: the nickname where there is one, else the
    /// user name.
    pub open spec fn shown_name(self) -> Seq<char> {
        match self.nick {
            Some(nick) => nick@,
            None => self.name@,
        }
    }

    /// Looks `find` up among `members`: the first of them whose user name or
    /// nickname it is.
    pub fn find(members: &Vec<NeoUser>, find: &String) -> (found: Option<NeoUser>)
        ensures
            found is None <==> forall|i: int|
                0 <= i < members.len() ==> !(#[trigger] members[i]).answers_to(find@),
            found matches Some(user) ==> exists|i: int|
                0 <= i < members.len() && #[trigger] members[i] == user && user.answers_to(find@)
                    && forall|j: int| 0 <= j < i ==> !(#[trigger] members[j]).answers_to(find@),
    {
        let mut i: usize = 0;
        while i < members.len()
            invariant
                i <= members.len(),
                forall|j: int| 0 <= j < i ==> !(#[trigger] members[j]).answers_to(find@),
            decreases members.len() - i,
        {
            let member = &members[i];
            let by_nick = match &member.nick {
                Some(nick) => *find == *nick,
                None => false,
            };
            if *find == member.name || by_nick {
                return Some(member.clone());
            }
            i += 1;
        }
        None
    }

    pub fn id(&self) -> (id: u64)
        ensures
            id == self.id,
    {
        self.id
    }

    pub fn name(&self) -> (name: String)
        ensures
            name@ == self.name@,
    {
        self.name.clone()
    }

    pub fn is_bot(&self) -> (bot: bool)
        ensures
            bot == self.bot,
    {
        self.bot
    }

    pub fn avatar(&self) -> (avatar: String)
        ensures
            avatar@ == self.avatar@,
    {
        self.avatar.clone()
    }

    /// The name the user shows.
    pub fn nick(&self) -> (nick: String)
        ensures
            nick@ == self.shown_name(),
    {
        match &self.nick {
            Some(nick) => nick.clone(),
            None => self.name(),
        }
    }
}

/// A message of the chat, as a script sees one.
#[derive(Debug)]
pub struct NeoMessage {
    pub id: u64,
    pub channel_id: u64,
    /// The community that the channel belongs to, where it belongs to one.
    pub guild_id: Option<u64>,
    pub content: String,
    pub author: NeoUser,
}

impl Clone for NeoMessage {
    fn clone(&self) -> (copy: Self)
        ensures
            copy == *self,
    {
        NeoMessage {
            id: self.id,
            channel_id: self.channel_id,
            guild_id: self.guild_id,
            content: self.content.clone(),
            author: self.author.clone(),
        }
    }
}

impl NeoMessage {
    pub fn id(&self) -> (id: u64)
        ensures
            id == self.id,
    {
        self.id
    }

    pub fn content(&self) -> (content: String)
        ensures
            content@ == self.content@,
    {
        self.content.clone()
    }

    pub fn author(&self) -> (author: NeoUser)
        ensures
            author == self.author,
    {
        self.author.clone()
    }
}

} // verus!
