//! The variables of the environment that the server reads.

use crate::api::errors::StaccError;
use crate::text::same_text;
use vstd::prelude::*;
use vstd::string::*;

verus! {

/// A variable of the environment.
#[derive(Clone, Copy, Debug, PartialEq, Eq, Structural)]
pub enum EnvironmentVariables {
    /// The password for the document store.
    MongoDBPassword,
    /// The host of the document store.
    MongoDBURI,
    /// The user of the document store.
    MongoDBUser,
    /// The token for the Chicago data portal.
    SocrataAppToken,
    /// The port on which the server listens.
    StaccAPIPortNumber,
    /// The name of the collection of background images.
    StaccBackgroundsCollectionName,
    /// The name of the database.
    StaccDatabase,
    /// The domain of the site.
    StaccDomain,
    /// The name of the collection of posts.
    StaccPostsCollectionName,
    /// The name of the collection of stories.
    StaccStoriesCollectionName,
    /// The name of the collection of visitors.
    StaccVisitorsCollectionName,
}

/// What reading a variable that is not set comes to.
pub const NOT_PRESENT: &'static str = "environment variable not found";

impl EnvironmentVariables {
    /// The name under which the variable stands in the environment.
    pub open spec fn name(&self) -> Seq<char> {
        match self {
            EnvironmentVariables::MongoDBPassword => "MONGO_PASSWORD"@,
            EnvironmentVariables::MongoDBURI => "MONGO_URI"@,
            EnvironmentVariables::MongoDBUser => "MONGO_USER"@,
            EnvironmentVariables::SocrataAppToken => "SOCRATA_APP_TOKEN"@,
            EnvironmentVariables::StaccAPIPortNumber => "STACC_API_PORT_NUMBER"@,
            EnvironmentVariables::StaccBackgroundsCollectionName => "STACC_BACKGROUNDS_COLLECTION_NAME"@,
            EnvironmentVariables::StaccDatabase => "STACC_DATABASE"@,
            EnvironmentVariables::StaccDomain => "STACC_DOMAIN"@,
            EnvironmentVariables::StaccPostsCollectionName => "STACC_POSTS_COLLECTION_NAME"@,
            EnvironmentVariables::StaccStoriesCollectionName => "STACC_STORIES_COLLECTION_NAME"@,
            EnvironmentVariables::StaccVisitorsCollectionName => "STACC_VISITORS_COLLECTION_NAME"@,
        }
    }

    /// The name under which the variable stands in the environment.
    pub fn key(&self) -> (name: &'static str)
        ensures
            name@ == self.name(),
    {
        match self {
            EnvironmentVariables::MongoDBPassword => "MONGO_PASSWORD",
            EnvironmentVariables::MongoDBURI => "MONGO_URI",
            EnvironmentVariables::MongoDBUser => "MONGO_USER",
            EnvironmentVariables::SocrataAppToken => "SOCRATA_APP_TOKEN",
            EnvironmentVariables::StaccAPIPortNumber => "STACC_API_PORT_NUMBER",
            EnvironmentVariables::StaccBackgroundsCollectionName => "STACC_BACKGROUNDS_COLLECTION_NAME",
            EnvironmentVariables::StaccDatabase => "STACC_DATABASE",
            EnvironmentVariables::StaccDomain => "STACC_DOMAIN",
            EnvironmentVariables::StaccPostsCollectionName => "STACC_POSTS_COLLECTION_NAME",
            EnvironmentVariables::StaccStoriesCollectionName => "STACC_STORIES_COLLECTION_NAME",
            EnvironmentVariables::StaccVisitorsCollectionName => "STACC_VISITORS_COLLECTION_NAME",
        }
    }

    /// The value of the variable in `environment`, a list of `(name, value)` pairs: the
    /// value of the first pair that carries the variable's name, and a failure where no
    /// pair does.
    pub fn env_var(&self, environment: &Vec<(String, String)>) -> (value: Result<
        String,
        StaccError,
    >)
        ensures
            match first_named(environment@, self.name()) {
                Some(i) => value matches Ok(text) && text@ == environment@[i].1@,
                None => value matches Err(StaccError::Environment(why)) && why@ == NOT_PRESENT@,
            },
    {
        let name = self.key();
        let mut i: usize = 0;
        while i < environment.len()
            invariant
                i <= environment.len(),
                name@ == self.name(),
                forall|j: int| 0 <= j < i ==> (#[trigger] environment@[j]).0@ != self.name(),
            decreases environment.len() - i,
        {
            if same_text(environment[i].0.as_str(), name) {
                proof {
                    lemma_first_named(environment@, self.name(), i as int);
                }
                return Ok(environment[i].1.clone());
            }
            i += 1;
        }
        proof {
            lemma_none_named(environment@, self.name());
        }
        Err(StaccError::Environment(NOT_PRESENT.to_owned()))
    }
}

/// The index of the first pair of `environment` that carries `name`.
pub open spec fn first_named(environment: Seq<(String, String)>, name: Seq<char>) -> Option<int>
    decreases environment.len(),
{
    if environment.len() == 0 {
        None
    } else {
        match first_named(environment.drop_last(), name) {
            Some(i) => Some(i),
            None => if environment.last().0@ == name {
                Some(environment.len() - 1)
            } else {
                None
            },
        }
    }
}

/// An index is the first to carry `name` when it carries it and none before it does.
pub proof fn lemma_first_named(environment: Seq<(String, String)>, name: Seq<char>, i: int)
    requires
        0 <= i < environment.len(),
        environment[i].0@ == name,
        forall|j: int| 0 <= j < i ==> (#[trigger] environment[j]).0@ != name,
    ensures
        first_named(environment, name) == Some(i),
    decreases environment.len(),
{
    let rest = environment.drop_last();
    if i < environment.len() - 1 {
        assert(rest[i] == environment[i]);
        assert forall|j: int| 0 <= j < i implies (#[trigger] rest[j]).0@ != name by {
            assert(rest[j] == environment[j]);
        }
        lemma_first_named(rest, name, i);
    } else {
        assert forall|j: int| 0 <= j < rest.len() implies (#[trigger] rest[j]).0@ != name by {
            assert(rest[j] == environment[j]);
        }
        lemma_none_named(rest, name);
    }
}

/// Where no pair carries `name`, none is the first to carry it.
pub proof fn lemma_none_named(environment: Seq<(String, String)>, name: Seq<char>)
    requires
        forall|j: int| 0 <= j < environment.len() ==> (#[trigger] environment[j]).0@ != name,
    ensures
        first_named(environment, name) is None,
    decreases environment.len(),
{
    if environment.len() > 0 {
        let rest = environment.drop_last();
        assert forall|j: int| 0 <= j < rest.len() implies (#[trigger] rest[j]).0@ != name by {
            assert(rest[j] == environment[j]);
        }
        lemma_none_named(rest, name);
        assert(environment.last() == environment[environment.len() - 1]);
    }
}

} // verus!
