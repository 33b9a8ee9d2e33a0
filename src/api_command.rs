use vstd::prelude::*;

use crate::event_types::ApiSubscriptionName;
use crate::json::{
    append_array_item, append_string_array, json_string_array, lemma_quoted_items_step,
    quoted_items,
};

verus! {

/// A command sent to the event service.
pub trait ApiCommand {
    /// The command's JSON text.
    spec fn json_text(&self) -> Seq<char>;

    /// Writes the command as the JSON text the service expects.
    fn to_json(&self) -> (r: String)
        ensures
            r@ == self.json_text(),
    ;
}

/// Asks the service to send `payload` back.
pub struct Echo {
    /// The JSON text of the value to echo, written into the command as it is.
    pub payload: String,
}

impl ApiCommand for Echo {
    open spec fn json_text(&self) -> Seq<char> {
        "{\"action\":\"echo\",\"payload\":"@ + self.payload@ + ",\"service\":\"event\"}"@
    }

    fn to_json(&self) -> (r: String) {
        let mut s = String::from_str("{\"action\":\"echo\",\"payload\":");
        s.append(self.payload.as_str());
        s.append(",\"service\":\"event\"}");
        s
    }
}

/// Subscribes to event kinds, for some characters and some worlds.
pub struct Subscribe {
    pub subscription_names: Vec<ApiSubscriptionName>,
    /// The character ids; none given means an empty list.
    pub character_ids: Option<Vec<String>>,
    /// The world ids; none given means an empty list.
    pub server_ids: Option<Vec<String>>,
    /// Whether an event must match both a character and a world; none given means false.
    pub match_chars_and_world: Option<bool>,
}

/// The strings of an optional list, empty where it is absent.
pub open spec fn optional_strings(list: Option<Vec<String>>) -> Seq<Seq<char>> {
    match list {
        Some(v) => v@.map_values(|s: String| s@),
        None => Seq::empty(),
    }
}

pub open spec fn bool_text(b: bool) -> Seq<char> {
    if b {
        "true"@
    } else {
        "false"@
    }
}

impl Subscribe {
    /// The wire names of the subscribed kinds.
    pub open spec fn event_names(&self) -> Seq<Seq<char>> {
        self.subscription_names@.map_values(|n: ApiSubscriptionName| n.name())
    }

    /// Whether events must match both a character and a world.
    pub open spec fn logical_and(&self) -> bool {
        match self.match_chars_and_world {
            Some(b) => b,
            None => false,
        }
    }
}

/// Appends the JSON array of an optional list of strings.
fn append_optional_array(out: &mut String, list: &Option<Vec<String>>)
    ensures
        final(out)@ == old(out)@ + json_string_array(optional_strings(*list)),
{
    match list {
        Some(v) => append_string_array(out, v),
        None => {
            append_string_array(out, &Vec::new());
            assert(Seq::<String>::empty().map_values(|s: String| s@) =~= Seq::<Seq<char>>::empty());
        },
    }
}

impl ApiCommand for Subscribe {
    open spec fn json_text(&self) -> Seq<char> {
        "{\"action\":\"subscribe\",\"characters\":"@ + json_string_array(
            optional_strings(self.character_ids),
        ) + ",\"eventNames\":"@ + json_string_array(self.event_names())
            + ",\"logicalAndCharactersWithWorlds\":"@ + bool_text(self.logical_and())
            + ",\"service\":\"event\",\"worlds\":"@ + json_string_array(
            optional_strings(self.server_ids),
        ) + "}"@
    }

    fn to_json(&self) -> (r: String) {
        let mut s = String::from_str("{\"action\":\"subscribe\",\"characters\":");
        append_optional_array(&mut s, &self.character_ids);
        s.append(",\"eventNames\":[");
        let ghost names = self.event_names();
        let ghost prefix = s@;
        let n = self.subscription_names.len();
        let mut i: usize = 0;
        assert(names.subrange(0, 0).len() == 0);
        assert(s@ == prefix + quoted_items(names.subrange(0, 0)));
        while i < n
            invariant
                n == self.subscription_names@.len(),
                names == self.event_names(),
                i <= n,
                s@ == prefix + quoted_items(names.subrange(0, i as int)),
            decreases n - i,
        {
            append_array_item(&mut s, i, self.subscription_names[i].str());
            proof {
                lemma_quoted_items_step(names, i as int);
            }
            i = i + 1;
        }
        assert(names.subrange(0, n as int) =~= names);
        s.append("],\"logicalAndCharactersWithWorlds\":");
        let and = match self.match_chars_and_world {
            Some(b) => b,
            None => false,
        };
        s.append(if and { "true" } else { "false" });
        s.append(",\"service\":\"event\",\"worlds\":");
        append_optional_array(&mut s, &self.server_ids);
        s.append("}");
        proof {
            reveal_strlit(",\"eventNames\":[");
            reveal_strlit(",\"eventNames\":");
            reveal_strlit("[");
            reveal_strlit("],\"logicalAndCharactersWithWorlds\":");
            reveal_strlit("]");
            reveal_strlit(",\"logicalAndCharactersWithWorlds\":");
        }
        assert(s@ =~= self.json_text());
        s
    }
}

} // verus!
