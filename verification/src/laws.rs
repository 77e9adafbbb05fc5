//! What holds of the paths across the functions of `paths`.

use vstd::prelude::*;
use vstd::string::*;

use crate::path::{join_spec, is_absolute, needs_separator, separator};
use crate::paths::{
    config_dir_spec, app_dir_spec, active_cluster_spec, clusters_dir_spec, last_sandbox_spec,
};

verus! {

/// What goes before a component appended to `dir`: `dir` itself where it is
/// empty or ends in a separator, else `dir` and a separator.
pub open spec fn dir_prefix(dir: Seq<char>) -> Seq<char> {
    if dir.len() > 0 && dir[dir.len() - 1] != '/' {
        dir + seq!['/']
    } else {
        dir
    }
}

/// `XDG_CONFIG_HOME`, where it is set, is the configuration directory whatever
/// `HOME` holds; otherwise `.config` under `HOME` is, and without either there
/// is none.
pub proof fn lemma_config_dir_choice(
    xdg_config_home: Option<Seq<char>>,
    home: Option<Seq<char>>,
    other_home: Option<Seq<char>>,
)
    ensures
        xdg_config_home is Some ==> config_dir_spec(xdg_config_home, home) == xdg_config_home
            && config_dir_spec(xdg_config_home, home) == config_dir_spec(
            xdg_config_home,
            other_home,
        ),
        xdg_config_home is None && home is Some ==> config_dir_spec(xdg_config_home, home)
            == Some(dir_prefix(home->0) + ".config"@),
        config_dir_spec(xdg_config_home, home) is None <==> (xdg_config_home is None
            && home is None),
{
    reveal_strlit(".config");
}

/// A relative component is appended to a directory after `dir_prefix`.
pub proof fn lemma_join_relative(dir: Seq<char>, comp: Seq<char>)
    requires
        !is_absolute(comp),
    ensures
        join_spec(dir, comp) == dir_prefix(dir) + comp,
{
    if needs_separator(dir) {
        assert(dir + seq![separator()] + comp =~= dir_prefix(dir) + comp);
    }
}

/// The layout of the files under a configuration directory `config`:
/// `nemoclaw/active_cluster`, `nemoclaw/clusters`, and for every cluster name
/// `nemoclaw/clusters/<cluster>/last_sandbox`, each after `dir_prefix(config)`;
/// so the last-sandbox file of a cluster lies in the clusters directory.
pub proof fn lemma_layout(config: Seq<char>, cluster: Seq<char>)
    ensures
        app_dir_spec(config) == dir_prefix(config) + "nemoclaw"@,
        active_cluster_spec(config) == app_dir_spec(config) + "/active_cluster"@,
        clusters_dir_spec(config) == app_dir_spec(config) + "/clusters"@,
        last_sandbox_spec(config, cluster) == clusters_dir_spec(config) + seq![separator()]
            + cluster + "/last_sandbox"@,
        last_sandbox_spec(config, cluster) == dir_prefix(config) + "nemoclaw/clusters/"@
            + cluster + "/last_sandbox"@,
{
    reveal_strlit("nemoclaw");
    reveal_strlit("active_cluster");
    reveal_strlit("/active_cluster");
    reveal_strlit("clusters");
    reveal_strlit("/clusters");
    reveal_strlit("/last_sandbox");
    reveal_strlit("nemoclaw/clusters/");
    let app = app_dir_spec(config);
    lemma_join_relative(config, "nemoclaw"@);
    assert(app.last() == 'w');
    assert(app + seq![separator()] + "active_cluster"@ =~= app + "/active_cluster"@);
    assert(app + seq![separator()] + "clusters"@ =~= app + "/clusters"@);
    assert(dir_prefix(config) + "nemoclaw"@ + "/clusters"@ + seq![separator()] + cluster
        + "/last_sandbox"@ =~= dir_prefix(config) + "nemoclaw/clusters/"@ + cluster
        + "/last_sandbox"@);
}

/// Each cluster has a last-sandbox file of its own: two different cluster
/// names never share one.
pub proof fn lemma_last_sandbox_distinct(config: Seq<char>, a: Seq<char>, b: Seq<char>)
    requires
        a != b,
    ensures
        last_sandbox_spec(config, a) != last_sandbox_spec(config, b),
{
    let head = clusters_dir_spec(config) + seq![separator()];
    let tail = "/last_sandbox"@;
    let pa = head + a + tail;
    let pb = head + b + tail;
    assert(last_sandbox_spec(config, a) == pa);
    assert(last_sandbox_spec(config, b) == pb);
    if pa == pb {
        assert(pa.len() == head.len() + a.len() + tail.len());
        assert(pb.len() == head.len() + b.len() + tail.len());
        assert(a =~= b) by {
            assert forall|i: int| 0 <= i < a.len() implies a[i] == b[i] by {
                assert(pa[head.len() + i] == a[i]);
                assert(pb[head.len() + i] == b[i]);
            }
        }
    }
}

/// The active-cluster file is neither the clusters directory nor any
/// cluster's last-sandbox file.
pub proof fn lemma_active_cluster_apart(config: Seq<char>, cluster: Seq<char>)
    ensures
        active_cluster_spec(config) != clusters_dir_spec(config),
        active_cluster_spec(config) != last_sandbox_spec(config, cluster),
{
    lemma_layout(config, cluster);
    reveal_strlit("/active_cluster");
    reveal_strlit("/clusters");
    let app = app_dir_spec(config);
    let i: int = app.len() as int + 1;
    assert(active_cluster_spec(config)[i] == 'a');
    assert(clusters_dir_spec(config)[i] == 'c');
    assert(last_sandbox_spec(config, cluster)[i] == 'c');
}

/// Appending a component to a directory, case by case: a component that
/// starts with '/' replaces the directory; otherwise it follows the directory
/// after a '/' where the directory is non-empty and does not end in '/',
/// follows it directly where the directory ends in '/', and stands alone
/// where the directory is empty.
pub proof fn lemma_join_cases(dir: Seq<char>, comp: Seq<char>)
    ensures
        comp.len() > 0 && comp[0] == '/' ==> join_spec(dir, comp) == comp,
        !(comp.len() > 0 && comp[0] == '/') && dir.len() > 0 && dir[dir.len() - 1] != '/'
            ==> join_spec(dir, comp) == dir + seq!['/'] + comp,
        !(comp.len() > 0 && comp[0] == '/') && dir.len() > 0 && dir[dir.len() - 1] == '/'
            ==> join_spec(dir, comp) == dir + comp,
        !(comp.len() > 0 && comp[0] == '/') && dir.len() == 0 ==> join_spec(dir, comp) == comp,
{
    if dir.len() == 0 {
        assert(dir + comp =~= comp);
    }
}

/// With `XDG_CONFIG_HOME` unset, the configuration directory is `.config`
/// under `HOME`: `h/.config` where `h` is non-empty and does not end in '/',
/// `h.config` where `h` ends in '/', and `.config` where `h` is empty.
pub proof fn lemma_home_config_dir(home: Seq<char>)
    ensures
        home.len() > 0 && home[home.len() - 1] != '/' ==> config_dir_spec(None, Some(home))
            == Some(home + "/.config"@),
        home.len() > 0 && home[home.len() - 1] == '/' ==> config_dir_spec(None, Some(home))
            == Some(home + ".config"@),
        home.len() == 0 ==> config_dir_spec(None, Some(home)) == Some(".config"@),
{
    reveal_strlit(".config");
    reveal_strlit("/.config");
    lemma_join_cases(home, ".config"@);
    assert(home + seq!['/'] + ".config"@ =~= home + "/.config"@);
}

/// The full paths under a configuration directory `config`, for every
/// cluster name: where `config` is non-empty and does not end in '/' they are
/// `config/nemoclaw/active_cluster`, `config/nemoclaw/clusters` and
/// `config/nemoclaw/clusters/<cluster>/last_sandbox`; where it ends in '/'
/// the same without the first '/'; where it is empty, they start at `nemoclaw`.
pub proof fn lemma_paths_under_config(config: Seq<char>, cluster: Seq<char>)
    ensures
        config.len() > 0 && config[config.len() - 1] != '/' ==> {
            &&& active_cluster_spec(config) == config + "/nemoclaw/active_cluster"@
            &&& clusters_dir_spec(config) == config + "/nemoclaw/clusters"@
            &&& last_sandbox_spec(config, cluster) == config + "/nemoclaw/clusters/"@ + cluster
                + "/last_sandbox"@
        },
        config.len() > 0 && config[config.len() - 1] == '/' ==> {
            &&& active_cluster_spec(config) == config + "nemoclaw/active_cluster"@
            &&& clusters_dir_spec(config) == config + "nemoclaw/clusters"@
            &&& last_sandbox_spec(config, cluster) == config + "nemoclaw/clusters/"@ + cluster
                + "/last_sandbox"@
        },
        config.len() == 0 ==> {
            &&& active_cluster_spec(config) == "nemoclaw/active_cluster"@
            &&& clusters_dir_spec(config) == "nemoclaw/clusters"@
            &&& last_sandbox_spec(config, cluster) == "nemoclaw/clusters/"@ + cluster
                + "/last_sandbox"@
        },
{
    lemma_layout(config, cluster);
    reveal_strlit("nemoclaw");
    reveal_strlit("/active_cluster");
    reveal_strlit("/clusters");
    reveal_strlit("/nemoclaw/active_cluster");
    reveal_strlit("/nemoclaw/clusters");
    reveal_strlit("/nemoclaw/clusters/");
    reveal_strlit("nemoclaw/active_cluster");
    reveal_strlit("nemoclaw/clusters");
    reveal_strlit("nemoclaw/clusters/");
    let p = dir_prefix(config);
    if config.len() > 0 && config[config.len() - 1] != '/' {
        assert(p + "nemoclaw"@ + "/active_cluster"@ =~= config + "/nemoclaw/active_cluster"@);
        assert(p + "nemoclaw"@ + "/clusters"@ =~= config + "/nemoclaw/clusters"@);
        assert(p + "nemoclaw/clusters/"@ =~= config + "/nemoclaw/clusters/"@);
    } else if config.len() > 0 {
        assert(p + "nemoclaw"@ + "/active_cluster"@ =~= config + "nemoclaw/active_cluster"@);
        assert(p + "nemoclaw"@ + "/clusters"@ =~= config + "nemoclaw/clusters"@);
    } else {
        assert(p + "nemoclaw"@ + "/active_cluster"@ =~= "nemoclaw/active_cluster"@);
        assert(p + "nemoclaw"@ + "/clusters"@ =~= "nemoclaw/clusters"@);
        assert(p + "nemoclaw/clusters/"@ =~= "nemoclaw/clusters/"@);
    }
}

} // verus!
