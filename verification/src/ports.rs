//! What the scanner knows about well-known TCP ports: names, descriptions,
//! security advice, typical usage, risk level and the port guides.

use vstd::prelude::*;

verus! {

/// Name of the service usually found on `port`.
pub open spec fn service_name(port: u16) -> Seq<char> {
    if port == 20 { "FTP (Data)"@ }
    else if port == 21 { "FTP (Control)"@ }
    else if port == 22 { "SSH - Secure Shell"@ }
    else if port == 23 { "Telnet - Remote Login"@ }
    else if port == 25 { "SMTP - Email Sending"@ }
    else if port == 53 { "DNS - Domain Name System"@ }
    else if port == 80 { "HTTP - Web Traffic"@ }
    else if port == 110 { "POP3 - Email"@ }
    else if port == 143 { "IMAP - Email"@ }
    else if port == 443 { "HTTPS - Secure Web"@ }
    else if port == 993 { "IMAPS - Secure IMAP"@ }
    else if port == 995 { "POP3S - Secure POP3"@ }
    else if port == 3306 { "MySQL - Database"@ }
    else if port == 3389 { "RDP - Remote Desktop"@ }
    else if port == 135 { "RPC Endpoint Mapper"@ }
    else if port == 139 { "NetBIOS Session Service"@ }
    else if port == 445 { "SMB/CIFS"@ }
    else if port == 1433 { "Microsoft SQL Server"@ }
    else if port == 1521 { "Oracle Database"@ }
    else if port == 5432 { "PostgreSQL"@ }
    else if port == 6379 { "Redis"@ }
    else if port == 27017 { "MongoDB"@ }
    else { "Service inconnu"@ }
}

/// Name of the service usually listening on `port`, or a placeholder for an unknown port.
pub fn get_service_name(port: u16) -> (name: String)
    ensures
        name@ == service_name(port),
{
    match port {
        20 => "FTP (Data)".to_string(),
        21 => "FTP (Control)".to_string(),
        22 => "SSH - Secure Shell".to_string(),
        23 => "Telnet - Remote Login".to_string(),
        25 => "SMTP - Email Sending".to_string(),
        53 => "DNS - Domain Name System".to_string(),
        80 => "HTTP - Web Traffic".to_string(),
        110 => "POP3 - Email".to_string(),
        143 => "IMAP - Email".to_string(),
        443 => "HTTPS - Secure Web".to_string(),
        993 => "IMAPS - Secure IMAP".to_string(),
        995 => "POP3S - Secure POP3".to_string(),
        3306 => "MySQL - Database".to_string(),
        3389 => "RDP - Remote Desktop".to_string(),
        135 => "RPC Endpoint Mapper".to_string(),
        139 => "NetBIOS Session Service".to_string(),
        445 => "SMB/CIFS".to_string(),
        1433 => "Microsoft SQL Server".to_string(),
        1521 => "Oracle Database".to_string(),
        5432 => "PostgreSQL".to_string(),
        6379 => "Redis".to_string(),
        27017 => "MongoDB".to_string(),
        _ => "Service inconnu".to_string(),
    }
}

/// Description of the protocol usually served on `port`.
pub open spec fn port_description(port: u16) -> Seq<char> {
    if port == 20 { "Canal de données FTP - Transfert de fichiers"@ }
    else if port == 21 { "Canal de contrôle FTP - Commandes de transfert de fichiers"@ }
    else if port == 22 { "Secure Shell - Accès terminal sécurisé et transfert de fichiers"@ }
    else if port == 23 { "Telnet - Accès terminal non sécurisé (obsolète)"@ }
    else if port == 25 { "Simple Mail Transfer Protocol - Envoi d'emails"@ }
    else if port == 53 { "Domain Name System - Résolution de noms de domaine"@ }
    else if port == 80 { "HyperText Transfer Protocol - Navigation web non sécurisée"@ }
    else if port == 110 { "Post Office Protocol v3 - Réception d'emails"@ }
    else if port == 143 { "Internet Message Access Protocol - Gestion d'emails sur serveur"@ }
    else if port == 443 { "HTTPS - Navigation web sécurisée avec SSL/TLS"@ }
    else if port == 993 { "IMAPS - IMAP sécurisé avec SSL/TLS"@ }
    else if port == 995 { "POP3S - POP3 sécurisé avec SSL/TLS"@ }
    else if port == 3306 { "MySQL Database - Base de données relationnelle"@ }
    else if port == 3389 { "Remote Desktop Protocol - Accès bureau à distance Windows"@ }
    else if port == 135 { "RPC Endpoint Mapper - Service RPC Windows"@ }
    else if port == 139 { "NetBIOS Session Service - Partage de fichiers Windows"@ }
    else if port == 445 { "SMB/CIFS - Partage de fichiers et imprimantes Windows"@ }
    else if port == 1433 { "Microsoft SQL Server - Base de données SQL Server"@ }
    else if port == 1521 { "Oracle Database - Base de données Oracle"@ }
    else if port == 5432 { "PostgreSQL - Base de données PostgreSQL"@ }
    else if port == 6379 { "Redis - Base de données en mémoire Redis"@ }
    else if port == 27017 { "MongoDB - Base de données NoSQL MongoDB"@ }
    else { "Port non standard - Vérifier la documentation du service"@ }
}

/// One-line description of the protocol usually served on `port`.
pub fn get_port_description(port: u16) -> (description: String)
    ensures
        description@ == port_description(port),
{
    match port {
        20 => "Canal de données FTP - Transfert de fichiers".to_string(),
        21 => "Canal de contrôle FTP - Commandes de transfert de fichiers".to_string(),
        22 => "Secure Shell - Accès terminal sécurisé et transfert de fichiers".to_string(),
        23 => "Telnet - Accès terminal non sécurisé (obsolète)".to_string(),
        25 => "Simple Mail Transfer Protocol - Envoi d'emails".to_string(),
        53 => "Domain Name System - Résolution de noms de domaine".to_string(),
        80 => "HyperText Transfer Protocol - Navigation web non sécurisée".to_string(),
        110 => "Post Office Protocol v3 - Réception d'emails".to_string(),
        143 => "Internet Message Access Protocol - Gestion d'emails sur serveur".to_string(),
        443 => "HTTPS - Navigation web sécurisée avec SSL/TLS".to_string(),
        993 => "IMAPS - IMAP sécurisé avec SSL/TLS".to_string(),
        995 => "POP3S - POP3 sécurisé avec SSL/TLS".to_string(),
        3306 => "MySQL Database - Base de données relationnelle".to_string(),
        3389 => "Remote Desktop Protocol - Accès bureau à distance Windows".to_string(),
        135 => "RPC Endpoint Mapper - Service RPC Windows".to_string(),
        139 => "NetBIOS Session Service - Partage de fichiers Windows".to_string(),
        445 => "SMB/CIFS - Partage de fichiers et imprimantes Windows".to_string(),
        1433 => "Microsoft SQL Server - Base de données SQL Server".to_string(),
        1521 => "Oracle Database - Base de données Oracle".to_string(),
        5432 => "PostgreSQL - Base de données PostgreSQL".to_string(),
        6379 => "Redis - Base de données en mémoire Redis".to_string(),
        27017 => "MongoDB - Base de données NoSQL MongoDB".to_string(),
        _ => "Port non standard - Vérifier la documentation du service".to_string(),
    }
}

/// Security advice attached to `port`.
pub open spec fn security_info(port: u16) -> Seq<char> {
    if port == 21 { "⚠️ FTP transmet les données en clair. Préférer SFTP (port 22)"@ }
    else if port == 22 { "✅ Protocole sécurisé. Vérifier les clés et désactiver l'auth par mot de passe"@ }
    else if port == 23 { "🚨 TRÈS DANGEREUX - Tout est transmis en clair. À désactiver immédiatement"@ }
    else if port == 25 { "⚠️ Peut être utilisé pour spam. Configurer l'authentification"@ }
    else if port == 53 { "ℹ️ Service essentiel. Sécuriser contre les attaques DNS"@ }
    else if port == 80 { "⚠️ Trafic non chiffré. Rediriger vers HTTPS (443)"@ }
    else if port == 110 { "⚠️ Emails transmis en clair. Préférer POP3S (995) ou IMAPS (993)"@ }
    else if port == 143 { "⚠️ Emails transmis en clair. Préférer IMAPS (993)"@ }
    else if port == 443 { "✅ Protocole sécurisé. Vérifier les certificats SSL/TLS"@ }
    else if port == 993 { "✅ IMAP sécurisé avec chiffrement SSL/TLS"@ }
    else if port == 995 { "✅ POP3 sécurisé avec chiffrement SSL/TLS"@ }
    else if port == 3306 { "⚠️ Base de données exposée. Restreindre l'accès et changer le port par défaut"@ }
    else if port == 3389 { "🚨 RDP exposé = risque élevé. Utiliser VPN et authentification forte"@ }
    else if port == 135 { "⚠️ Service Windows. Peut être exploité, limiter l'exposition"@ }
    else if port == 139 { "⚠️ NetBIOS ancien protocole. Désactiver si non nécessaire"@ }
    else if port == 445 { "⚠️ SMB vulnérable aux attaques. Mettre à jour et sécuriser"@ }
    else if port == 1433 { "⚠️ SQL Server exposé. Changer le port et restreindre l'accès"@ }
    else if port == 1521 { "⚠️ Oracle Database exposée. Sécuriser l'accès et changer le port"@ }
    else if port == 5432 { "⚠️ PostgreSQL exposé. Configurer l'authentification et le chiffrement"@ }
    else if port == 6379 { "🚨 Redis sans auth par défaut. Configurer un mot de passe immédiatement"@ }
    else if port == 27017 { "⚠️ MongoDB exposé. Activer l'authentification et le chiffrement"@ }
    else { "ℹ️ Port non standard. Identifier le service et évaluer les risques"@ }
}

/// Security advice for an exposed `port`.
pub fn get_security_info(port: u16) -> (advice: String)
    ensures
        advice@ == security_info(port),
{
    match port {
        21 => "⚠️ FTP transmet les données en clair. Préférer SFTP (port 22)".to_string(),
        22 => "✅ Protocole sécurisé. Vérifier les clés et désactiver l'auth par mot de passe".to_string(),
        23 => "🚨 TRÈS DANGEREUX - Tout est transmis en clair. À désactiver immédiatement".to_string(),
        25 => "⚠️ Peut être utilisé pour spam. Configurer l'authentification".to_string(),
        53 => "ℹ️ Service essentiel. Sécuriser contre les attaques DNS".to_string(),
        80 => "⚠️ Trafic non chiffré. Rediriger vers HTTPS (443)".to_string(),
        110 => "⚠️ Emails transmis en clair. Préférer POP3S (995) ou IMAPS (993)".to_string(),
        143 => "⚠️ Emails transmis en clair. Préférer IMAPS (993)".to_string(),
        443 => "✅ Protocole sécurisé. Vérifier les certificats SSL/TLS".to_string(),
        993 => "✅ IMAP sécurisé avec chiffrement SSL/TLS".to_string(),
        995 => "✅ POP3 sécurisé avec chiffrement SSL/TLS".to_string(),
        3306 => "⚠️ Base de données exposée. Restreindre l'accès et changer le port par défaut".to_string(),
        3389 => "🚨 RDP exposé = risque élevé. Utiliser VPN et authentification forte".to_string(),
        135 => "⚠️ Service Windows. Peut être exploité, limiter l'exposition".to_string(),
        139 => "⚠️ NetBIOS ancien protocole. Désactiver si non nécessaire".to_string(),
        445 => "⚠️ SMB vulnérable aux attaques. Mettre à jour et sécuriser".to_string(),
        1433 => "⚠️ SQL Server exposé. Changer le port et restreindre l'accès".to_string(),
        1521 => "⚠️ Oracle Database exposée. Sécuriser l'accès et changer le port".to_string(),
        5432 => "⚠️ PostgreSQL exposé. Configurer l'authentification et le chiffrement".to_string(),
        6379 => "🚨 Redis sans auth par défaut. Configurer un mot de passe immédiatement".to_string(),
        27017 => "⚠️ MongoDB exposé. Activer l'authentification et le chiffrement".to_string(),
        _ => "ℹ️ Port non standard. Identifier le service et évaluer les risques".to_string(),
    }
}

/// Typical deployments of the service on `port`.
pub open spec fn typical_usage(port: u16) -> Seq<char> {
    if port == 20 { "Serveurs FTP pour transfert de fichiers volumineux"@ }
    else if port == 21 { "Serveurs FTP, sites web avec upload de fichiers"@ }
    else if port == 22 { "Administration serveurs, déploiement code, tunnels sécurisés"@ }
    else if port == 23 { "Anciens équipements réseau (routeurs, switches legacy)"@ }
    else if port == 25 { "Serveurs mail (Postfix, Sendmail, Exchange)"@ }
    else if port == 53 { "Serveurs DNS (BIND, PowerDNS), résolution de domaines"@ }
    else if port == 80 { "Serveurs web (Apache, Nginx), sites internet non sécurisés"@ }
    else if port == 110 { "Serveurs mail pour clients de messagerie traditionnels"@ }
    else if port == 143 { "Serveurs mail (Dovecot, Exchange) pour accès IMAP"@ }
    else if port == 443 { "Sites web sécurisés (HTTPS), APIs REST, services web"@ }
    else if port == 993 { "Serveurs mail sécurisés pour clients de messagerie modernes"@ }
    else if port == 995 { "Serveurs mail sécurisés pour téléchargement d'emails"@ }
    else if port == 3306 { "Applications web avec base de données MySQL/MariaDB"@ }
    else if port == 3389 { "Administration à distance de serveurs/postes Windows"@ }
    else if port == 135 { "Services Windows, Active Directory, applications Microsoft"@ }
    else if port == 139 { "Partage de fichiers en réseau local Windows"@ }
    else if port == 445 { "Partage de fichiers/imprimantes Windows, serveurs de fichiers"@ }
    else if port == 1433 { "Applications .NET, ERP, CRM avec base SQL Server"@ }
    else if port == 1521 { "Applications d'entreprise, ERP Oracle, bases de données critiques"@ }
    else if port == 5432 { "Applications web modernes, systèmes analytiques"@ }
    else if port == 6379 { "Cache applicatif, sessions utilisateurs, données temporaires"@ }
    else if port == 27017 { "Applications web modernes, APIs, systèmes de gestion de contenu"@ }
    else { "Vérifier la documentation de l'application concernée"@ }
}

/// Where the service on `port` is typically found.
pub fn get_typical_usage(port: u16) -> (usage: String)
    ensures
        usage@ == typical_usage(port),
{
    match port {
        20 => "Serveurs FTP pour transfert de fichiers volumineux".to_string(),
        21 => "Serveurs FTP, sites web avec upload de fichiers".to_string(),
        22 => "Administration serveurs, déploiement code, tunnels sécurisés".to_string(),
        23 => "Anciens équipements réseau (routeurs, switches legacy)".to_string(),
        25 => "Serveurs mail (Postfix, Sendmail, Exchange)".to_string(),
        53 => "Serveurs DNS (BIND, PowerDNS), résolution de domaines".to_string(),
        80 => "Serveurs web (Apache, Nginx), sites internet non sécurisés".to_string(),
        110 => "Serveurs mail pour clients de messagerie traditionnels".to_string(),
        143 => "Serveurs mail (Dovecot, Exchange) pour accès IMAP".to_string(),
        443 => "Sites web sécurisés (HTTPS), APIs REST, services web".to_string(),
        993 => "Serveurs mail sécurisés pour clients de messagerie modernes".to_string(),
        995 => "Serveurs mail sécurisés pour téléchargement d'emails".to_string(),
        3306 => "Applications web avec base de données MySQL/MariaDB".to_string(),
        3389 => "Administration à distance de serveurs/postes Windows".to_string(),
        135 => "Services Windows, Active Directory, applications Microsoft".to_string(),
        139 => "Partage de fichiers en réseau local Windows".to_string(),
        445 => "Partage de fichiers/imprimantes Windows, serveurs de fichiers".to_string(),
        1433 => "Applications .NET, ERP, CRM avec base SQL Server".to_string(),
        1521 => "Applications d'entreprise, ERP Oracle, bases de données critiques".to_string(),
        5432 => "Applications web modernes, systèmes analytiques".to_string(),
        6379 => "Cache applicatif, sessions utilisateurs, données temporaires".to_string(),
        27017 => "Applications web modernes, APIs, systèmes de gestion de contenu".to_string(),
        _ => "Vérifier la documentation de l'application concernée".to_string(),
    }
}
/// How risky it is to leave a port exposed, as the port guide colours it.
#[derive(Clone, Copy, Debug, PartialEq, Eq, Structural)]
pub enum PortRisk {
    /// An encrypted, well-secured protocol.
    Secure,
    /// A protocol that sends data in clear or is often misconfigured.
    Caution,
    /// A service whose exposure is dangerous.
    Dangerous,
    /// Any other port.
    Neutral,
}

/// The risk class of `port`.
pub open spec fn risk_of(port: u16) -> PortRisk {
    if port == 22 || port == 443 || port == 993 || port == 995 {
        PortRisk::Secure
    } else if port == 21 || port == 23 || port == 80 || port == 110 || port == 143 {
        PortRisk::Caution
    } else if port == 3389 || port == 6379 {
        PortRisk::Dangerous
    } else {
        PortRisk::Neutral
    }
}

/// The risk class of `port`.
pub fn port_risk(port: u16) -> (risk: PortRisk)
    ensures
        risk == risk_of(port),
{
    match port {
        22 | 443 | 993 | 995 => PortRisk::Secure,
        21 | 23 | 80 | 110 | 143 => PortRisk::Caution,
        3389 | 6379 => PortRisk::Dangerous,
        _ => PortRisk::Neutral,
    }
}

/// The ports listed by the command-line guide, in increasing order.
pub open spec fn cli_guide_ports() -> Seq<u16> {
    seq![20u16, 21, 22, 23, 25, 53, 80, 110, 143, 443, 993, 995, 3306, 3389]
}

/// The ports listed by the graphical guide, in increasing order.
pub open spec fn gui_guide_ports() -> Seq<u16> {
    seq![20u16, 21, 22, 23, 25, 53, 80, 110, 135, 139, 143, 443, 445, 993, 995, 1433, 1521, 3306,
        3389, 5432, 6379, 27017]
}

/// `entries` lists exactly `ports`, in that order, each with its service name.
pub open spec fn is_guide_for(entries: Seq<(u16, String)>, ports: Seq<u16>) -> bool {
    &&& entries.len() == ports.len()
    &&& forall|i: int|
        0 <= i < ports.len() ==> (#[trigger] entries[i]).0 == ports[i] && entries[i].1@
            == service_name(ports[i])
}

/// Pairs each port of `ports` with its service name, keeping the order.
pub fn guide_for_ports(ports: &[u16]) -> (entries: Vec<(u16, String)>)
    ensures
        is_guide_for(entries@, ports@),
{
    let mut entries: Vec<(u16, String)> = Vec::new();
    let n = ports.len();
    for i in 0..n
        invariant
            n == ports@.len(),
            is_guide_for(entries@, ports@.take(i as int)),
    {
        let port = ports[i];
        entries.push((port, get_service_name(port)));
    }
    assert(ports@.take(n as int) =~= ports@);
    entries
}

/// The guide of common ports shown by the command-line menu.
pub fn cli_port_guide() -> (entries: Vec<(u16, String)>)
    ensures
        is_guide_for(entries@, cli_guide_ports()),
{
    let ports: [u16; 14] = [20, 21, 22, 23, 25, 53, 80, 110, 143, 443, 993, 995, 3306, 3389];
    let entries = guide_for_ports(&ports);
    assert(ports@ =~= cli_guide_ports());
    entries
}

/// The guide of common ports shown by the graphical interface.
pub fn gui_port_guide() -> (entries: Vec<(u16, String)>)
    ensures
        is_guide_for(entries@, gui_guide_ports()),
{
    let ports: [u16; 22] = [
        20, 21, 22, 23, 25, 53, 80, 110, 135, 139, 143, 443, 445, 993, 995, 1433, 1521, 3306, 3389,
        5432, 6379, 27017,
    ];
    let entries = guide_for_ports(&ports);
    assert(ports@ =~= gui_guide_ports());
    entries
}

/// Every port of the graphical guide has a known service: its name is never
/// the placeholder for unknown ports.
pub proof fn lemma_gui_guide_ports_are_known(i: int)
    requires
        0 <= i < gui_guide_ports().len(),
    ensures
        service_name(gui_guide_ports()[i]) != "Service inconnu"@,
{
    reveal_strlit("FTP (Data)");
    reveal_strlit("FTP (Control)");
    reveal_strlit("SSH - Secure Shell");
    reveal_strlit("Telnet - Remote Login");
    reveal_strlit("SMTP - Email Sending");
    reveal_strlit("DNS - Domain Name System");
    reveal_strlit("HTTP - Web Traffic");
    reveal_strlit("POP3 - Email");
    reveal_strlit("IMAP - Email");
    reveal_strlit("HTTPS - Secure Web");
    reveal_strlit("IMAPS - Secure IMAP");
    reveal_strlit("POP3S - Secure POP3");
    reveal_strlit("MySQL - Database");
    reveal_strlit("RDP - Remote Desktop");
    reveal_strlit("RPC Endpoint Mapper");
    reveal_strlit("NetBIOS Session Service");
    reveal_strlit("SMB/CIFS");
    reveal_strlit("Microsoft SQL Server");
    reveal_strlit("Oracle Database");
    reveal_strlit("PostgreSQL");
    reveal_strlit("Redis");
    reveal_strlit("MongoDB");
    reveal_strlit("Service inconnu");
    assert(gui_guide_ports()[i] == 20 || gui_guide_ports()[i] == 21 || gui_guide_ports()[i] == 22
        || gui_guide_ports()[i] == 23 || gui_guide_ports()[i] == 25 || gui_guide_ports()[i] == 53
        || gui_guide_ports()[i] == 80 || gui_guide_ports()[i] == 110 || gui_guide_ports()[i] == 135
        || gui_guide_ports()[i] == 139 || gui_guide_ports()[i] == 143 || gui_guide_ports()[i] == 443
        || gui_guide_ports()[i] == 445 || gui_guide_ports()[i] == 993 || gui_guide_ports()[i] == 995
        || gui_guide_ports()[i] == 1433 || gui_guide_ports()[i] == 1521 || gui_guide_ports()[i] == 3306
        || gui_guide_ports()[i] == 3389 || gui_guide_ports()[i] == 5432 || gui_guide_ports()[i] == 6379
        || gui_guide_ports()[i] == 27017);
    let name = service_name(gui_guide_ports()[i]);
    assert(name.len() != 15 || name[0] != 'S');
}

/// Both guides list their ports in strictly increasing order (so no port
/// twice), and every port of the command-line guide is in the graphical one.
pub proof fn lemma_guides_sorted_and_nested()
    ensures
        forall|i: int, j: int|
            0 <= i < j < cli_guide_ports().len() ==> cli_guide_ports()[i] < cli_guide_ports()[j],
        forall|i: int, j: int|
            0 <= i < j < gui_guide_ports().len() ==> gui_guide_ports()[i] < gui_guide_ports()[j],
        forall|i: int|
            0 <= i < cli_guide_ports().len() ==> gui_guide_ports().contains(
                #[trigger] cli_guide_ports()[i],
            ),
{
    let c = cli_guide_ports();
    let g = gui_guide_ports();
    assert forall|i: int| 0 <= i < c.len() implies g.contains(#[trigger] c[i]) by {
        if i < 8 {
            assert(g[i] == c[i]);
        } else if i == 8 {
            assert(g[10] == c[i]);
        } else if i == 9 {
            assert(g[11] == c[i]);
        } else if i == 10 {
            assert(g[13] == c[i]);
        } else if i == 11 {
            assert(g[14] == c[i]);
        } else if i == 12 {
            assert(g[17] == c[i]);
        } else {
            assert(g[18] == c[i]);
        }
    }
}

/// The ports the scanner knows a service for.
pub open spec fn known_port(p: u16) -> bool {
    p == 20
    || p == 21
    || p == 22
    || p == 23
    || p == 25
    || p == 53
    || p == 80
    || p == 110
    || p == 143
    || p == 443
    || p == 993
    || p == 995
    || p == 3306
    || p == 3389
    || p == 135
    || p == 139
    || p == 445
    || p == 1433
    || p == 1521
    || p == 5432
    || p == 6379
    || p == 27017
}

/// The port whose service is named `name`, told apart by the name's length
/// and its first and fifth characters.
pub open spec fn port_of_name(name: Seq<char>) -> u16 {
    if name.len() == 10 && name[0] == 'F' && name[4] == '(' { 20 }
    else if name.len() == 13 && name[0] == 'F' && name[4] == '(' { 21 }
    else if name.len() == 18 && name[0] == 'S' && name[4] == '-' { 22 }
    else if name.len() == 21 && name[0] == 'T' && name[4] == 'e' { 23 }
    else if name.len() == 20 && name[0] == 'S' && name[4] == ' ' { 25 }
    else if name.len() == 24 && name[0] == 'D' && name[4] == '-' { 53 }
    else if name.len() == 18 && name[0] == 'H' && name[4] == ' ' { 80 }
    else if name.len() == 12 && name[0] == 'P' && name[4] == ' ' { 110 }
    else if name.len() == 12 && name[0] == 'I' && name[4] == ' ' { 143 }
    else if name.len() == 18 && name[0] == 'H' && name[4] == 'S' { 443 }
    else if name.len() == 19 && name[0] == 'I' && name[4] == 'S' { 993 }
    else if name.len() == 19 && name[0] == 'P' && name[4] == 'S' { 995 }
    else if name.len() == 16 && name[0] == 'M' && name[4] == 'L' { 3306 }
    else if name.len() == 20 && name[0] == 'R' && name[4] == '-' { 3389 }
    else if name.len() == 19 && name[0] == 'R' && name[4] == 'E' { 135 }
    else if name.len() == 23 && name[0] == 'N' && name[4] == 'I' { 139 }
    else if name.len() == 8 && name[0] == 'S' && name[4] == 'C' { 445 }
    else if name.len() == 20 && name[0] == 'M' && name[4] == 'o' { 1433 }
    else if name.len() == 15 && name[0] == 'O' && name[4] == 'l' { 1521 }
    else if name.len() == 10 && name[0] == 'P' && name[4] == 'g' { 5432 }
    else if name.len() == 5 && name[0] == 'R' && name[4] == 's' { 6379 }
    else if name.len() == 7 && name[0] == 'M' && name[4] == 'o' { 27017 }
    else { 0 }
}

proof fn lemma_port_of_name(p: u16)
    requires
        known_port(p),
    ensures
        port_of_name(service_name(p)) == p,
{
    reveal_strlit("FTP (Data)");
    reveal_strlit("FTP (Control)");
    reveal_strlit("SSH - Secure Shell");
    reveal_strlit("Telnet - Remote Login");
    reveal_strlit("SMTP - Email Sending");
    reveal_strlit("DNS - Domain Name System");
    reveal_strlit("HTTP - Web Traffic");
    reveal_strlit("POP3 - Email");
    reveal_strlit("IMAP - Email");
    reveal_strlit("HTTPS - Secure Web");
    reveal_strlit("IMAPS - Secure IMAP");
    reveal_strlit("POP3S - Secure POP3");
    reveal_strlit("MySQL - Database");
    reveal_strlit("RDP - Remote Desktop");
    reveal_strlit("RPC Endpoint Mapper");
    reveal_strlit("NetBIOS Session Service");
    reveal_strlit("SMB/CIFS");
    reveal_strlit("Microsoft SQL Server");
    reveal_strlit("Oracle Database");
    reveal_strlit("PostgreSQL");
    reveal_strlit("Redis");
    reveal_strlit("MongoDB");
    reveal_strlit("Service inconnu");
}

/// Known ports have distinct service names.
pub proof fn lemma_service_names_distinct(p: u16, q: u16)
    requires
        known_port(p),
        known_port(q),
        p != q,
    ensures
        service_name(p) != service_name(q),
{
    lemma_port_of_name(p);
    lemma_port_of_name(q);
}

/// A port has a service name other than the placeholder exactly when it is
/// a known port.
pub proof fn lemma_service_name_known(p: u16)
    ensures
        (service_name(p) != "Service inconnu"@) == known_port(p),
{
    reveal_strlit("FTP (Data)");
    reveal_strlit("FTP (Control)");
    reveal_strlit("SSH - Secure Shell");
    reveal_strlit("Telnet - Remote Login");
    reveal_strlit("SMTP - Email Sending");
    reveal_strlit("DNS - Domain Name System");
    reveal_strlit("HTTP - Web Traffic");
    reveal_strlit("POP3 - Email");
    reveal_strlit("IMAP - Email");
    reveal_strlit("HTTPS - Secure Web");
    reveal_strlit("IMAPS - Secure IMAP");
    reveal_strlit("POP3S - Secure POP3");
    reveal_strlit("MySQL - Database");
    reveal_strlit("RDP - Remote Desktop");
    reveal_strlit("RPC Endpoint Mapper");
    reveal_strlit("NetBIOS Session Service");
    reveal_strlit("SMB/CIFS");
    reveal_strlit("Microsoft SQL Server");
    reveal_strlit("Oracle Database");
    reveal_strlit("PostgreSQL");
    reveal_strlit("Redis");
    reveal_strlit("MongoDB");
    reveal_strlit("Service inconnu");
    if known_port(p) {
        let text = service_name(p);
        assert(text.len() != 15 || text[0] != 'S');
    }
}

/// A port has a specific description exactly when it is a known port.
pub proof fn lemma_description_known(p: u16)
    ensures
        (port_description(p) != "Port non standard - Vérifier la documentation du service"@) == known_port(p),
{
    reveal_strlit("Canal de données FTP - Transfert de fichiers");
    reveal_strlit("Canal de contrôle FTP - Commandes de transfert de fichiers");
    reveal_strlit("Secure Shell - Accès terminal sécurisé et transfert de fichiers");
    reveal_strlit("Telnet - Accès terminal non sécurisé (obsolète)");
    reveal_strlit("Simple Mail Transfer Protocol - Envoi d'emails");
    reveal_strlit("Domain Name System - Résolution de noms de domaine");
    reveal_strlit("HyperText Transfer Protocol - Navigation web non sécurisée");
    reveal_strlit("Post Office Protocol v3 - Réception d'emails");
    reveal_strlit("Internet Message Access Protocol - Gestion d'emails sur serveur");
    reveal_strlit("HTTPS - Navigation web sécurisée avec SSL/TLS");
    reveal_strlit("IMAPS - IMAP sécurisé avec SSL/TLS");
    reveal_strlit("POP3S - POP3 sécurisé avec SSL/TLS");
    reveal_strlit("MySQL Database - Base de données relationnelle");
    reveal_strlit("Remote Desktop Protocol - Accès bureau à distance Windows");
    reveal_strlit("RPC Endpoint Mapper - Service RPC Windows");
    reveal_strlit("NetBIOS Session Service - Partage de fichiers Windows");
    reveal_strlit("SMB/CIFS - Partage de fichiers et imprimantes Windows");
    reveal_strlit("Microsoft SQL Server - Base de données SQL Server");
    reveal_strlit("Oracle Database - Base de données Oracle");
    reveal_strlit("PostgreSQL - Base de données PostgreSQL");
    reveal_strlit("Redis - Base de données en mémoire Redis");
    reveal_strlit("MongoDB - Base de données NoSQL MongoDB");
    reveal_strlit("Port non standard - Vérifier la documentation du service");
    if known_port(p) {
        let text = port_description(p);
        assert(text.len() != 56 || text[0] != 'P');
    }
}

/// A port has a specific typical usage exactly when it is a known port.
pub proof fn lemma_usage_known(p: u16)
    ensures
        (typical_usage(p) != "Vérifier la documentation de l'application concernée"@) == known_port(p),
{
    reveal_strlit("Serveurs FTP pour transfert de fichiers volumineux");
    reveal_strlit("Serveurs FTP, sites web avec upload de fichiers");
    reveal_strlit("Administration serveurs, déploiement code, tunnels sécurisés");
    reveal_strlit("Anciens équipements réseau (routeurs, switches legacy)");
    reveal_strlit("Serveurs mail (Postfix, Sendmail, Exchange)");
    reveal_strlit("Serveurs DNS (BIND, PowerDNS), résolution de domaines");
    reveal_strlit("Serveurs web (Apache, Nginx), sites internet non sécurisés");
    reveal_strlit("Serveurs mail pour clients de messagerie traditionnels");
    reveal_strlit("Serveurs mail (Dovecot, Exchange) pour accès IMAP");
    reveal_strlit("Sites web sécurisés (HTTPS), APIs REST, services web");
    reveal_strlit("Serveurs mail sécurisés pour clients de messagerie modernes");
    reveal_strlit("Serveurs mail sécurisés pour téléchargement d'emails");
    reveal_strlit("Applications web avec base de données MySQL/MariaDB");
    reveal_strlit("Administration à distance de serveurs/postes Windows");
    reveal_strlit("Services Windows, Active Directory, applications Microsoft");
    reveal_strlit("Partage de fichiers en réseau local Windows");
    reveal_strlit("Partage de fichiers/imprimantes Windows, serveurs de fichiers");
    reveal_strlit("Applications .NET, ERP, CRM avec base SQL Server");
    reveal_strlit("Applications d'entreprise, ERP Oracle, bases de données critiques");
    reveal_strlit("Applications web modernes, systèmes analytiques");
    reveal_strlit("Cache applicatif, sessions utilisateurs, données temporaires");
    reveal_strlit("Applications web modernes, APIs, systèmes de gestion de contenu");
    reveal_strlit("Vérifier la documentation de l'application concernée");
    if known_port(p) {
        let text = typical_usage(p);
        assert(text.len() != 52 || text[0] != 'V');
    }
}

/// The risk classes are the documented ones: secure for SSH, HTTPS, IMAPS
/// and POP3S; caution for FTP, Telnet, HTTP, POP3 and IMAP; dangerous for
/// exposed RDP and Redis; neutral for every other port.
pub proof fn lemma_risk_classes(p: u16)
    ensures
        (risk_of(p) == PortRisk::Secure) == (p == 22 || p == 443 || p == 993 || p == 995),
        (risk_of(p) == PortRisk::Caution) == (p == 21 || p == 23 || p == 80 || p == 110 || p
            == 143),
        (risk_of(p) == PortRisk::Dangerous) == (p == 3389 || p == 6379),
        (risk_of(p) == PortRisk::Neutral) == !(p == 22 || p == 443 || p == 993 || p == 995 || p
            == 21 || p == 23 || p == 80 || p == 110 || p == 143 || p == 3389 || p == 6379),
{
}

/// The mark that opens the advice of an encrypted, well-secured protocol.
pub open spec fn secure_mark() -> char {
    '✅'
}

/// The mark that opens the advice of a dangerous exposure.
pub open spec fn danger_mark() -> char {
    '🚨'
}

/// The advice agrees with the risk class: it opens with the secure mark
/// exactly for the secure ports, opens with the danger mark for every
/// dangerous port, and a neutral port never gets the danger mark.
pub proof fn lemma_advice_matches_risk(p: u16)
    ensures
        security_info(p).len() > 0,
        (security_info(p)[0] == secure_mark()) == (risk_of(p) == PortRisk::Secure),
        risk_of(p) == PortRisk::Dangerous ==> security_info(p)[0] == danger_mark(),
        security_info(p)[0] == danger_mark() ==> risk_of(p) != PortRisk::Neutral,
{
    reveal_strlit("⚠️ FTP transmet les données en clair. Préférer SFTP (port 22)");
    reveal_strlit("✅ Protocole sécurisé. Vérifier les clés et désactiver l'auth par mot de passe");
    reveal_strlit("🚨 TRÈS DANGEREUX - Tout est transmis en clair. À désactiver immédiatement");
    reveal_strlit("⚠️ Peut être utilisé pour spam. Configurer l'authentification");
    reveal_strlit("ℹ️ Service essentiel. Sécuriser contre les attaques DNS");
    reveal_strlit("⚠️ Trafic non chiffré. Rediriger vers HTTPS (443)");
    reveal_strlit("⚠️ Emails transmis en clair. Préférer POP3S (995) ou IMAPS (993)");
    reveal_strlit("⚠️ Emails transmis en clair. Préférer IMAPS (993)");
    reveal_strlit("✅ Protocole sécurisé. Vérifier les certificats SSL/TLS");
    reveal_strlit("✅ IMAP sécurisé avec chiffrement SSL/TLS");
    reveal_strlit("✅ POP3 sécurisé avec chiffrement SSL/TLS");
    reveal_strlit("⚠️ Base de données exposée. Restreindre l'accès et changer le port par défaut");
    reveal_strlit("🚨 RDP exposé = risque élevé. Utiliser VPN et authentification forte");
    reveal_strlit("⚠️ Service Windows. Peut être exploité, limiter l'exposition");
    reveal_strlit("⚠️ NetBIOS ancien protocole. Désactiver si non nécessaire");
    reveal_strlit("⚠️ SMB vulnérable aux attaques. Mettre à jour et sécuriser");
    reveal_strlit("⚠️ SQL Server exposé. Changer le port et restreindre l'accès");
    reveal_strlit("⚠️ Oracle Database exposée. Sécuriser l'accès et changer le port");
    reveal_strlit("⚠️ PostgreSQL exposé. Configurer l'authentification et le chiffrement");
    reveal_strlit("🚨 Redis sans auth par défaut. Configurer un mot de passe immédiatement");
    reveal_strlit("⚠️ MongoDB exposé. Activer l'authentification et le chiffrement");
    reveal_strlit("ℹ️ Port non standard. Identifier le service et évaluer les risques");
}

/// The port whose own advice is `advice` (0 for the generic advice), told
/// apart by the advice's length and its first and fifth characters.
pub open spec fn advice_owner(advice: Seq<char>) -> u16 {
    if advice.len() == 61 && advice[0] == '⚠' && advice[4] == 'T' { 21 }
    else if advice.len() == 77 && advice[0] == '✅' && advice[4] == 'o' { 22 }
    else if advice.len() == 73 && advice[0] == '🚨' && advice[4] == 'È' { 23 }
    else if advice.len() == 61 && advice[0] == '⚠' && advice[4] == 'e' { 25 }
    else if advice.len() == 55 && advice[0] == 'ℹ' && advice[4] == 'e' { 53 }
    else if advice.len() == 49 && advice[0] == '⚠' && advice[4] == 'r' { 80 }
    else if advice.len() == 64 && advice[0] == '⚠' && advice[4] == 'm' { 110 }
    else if advice.len() == 49 && advice[0] == '⚠' && advice[4] == 'm' { 143 }
    else if advice.len() == 54 && advice[0] == '✅' && advice[4] == 'o' { 443 }
    else if advice.len() == 40 && advice[0] == '✅' && advice[4] == 'A' { 993 }
    else if advice.len() == 40 && advice[0] == '✅' && advice[4] == 'P' { 995 }
    else if advice.len() == 77 && advice[0] == '⚠' && advice[4] == 'a' { 3306 }
    else if advice.len() == 67 && advice[0] == '🚨' && advice[4] == 'P' { 3389 }
    else if advice.len() == 60 && advice[0] == '⚠' && advice[4] == 'e' { 135 }
    else if advice.len() == 57 && advice[0] == '⚠' && advice[4] == 'e' { 139 }
    else if advice.len() == 58 && advice[0] == '⚠' && advice[4] == 'M' { 445 }
    else if advice.len() == 60 && advice[0] == '⚠' && advice[4] == 'Q' { 1433 }
    else if advice.len() == 64 && advice[0] == '⚠' && advice[4] == 'r' { 1521 }
    else if advice.len() == 69 && advice[0] == '⚠' && advice[4] == 'o' { 5432 }
    else if advice.len() == 70 && advice[0] == '🚨' && advice[4] == 'd' { 6379 }
    else if advice.len() == 63 && advice[0] == '⚠' && advice[4] == 'o' { 27017 }
    else if advice.len() == 66 && advice[0] == 'ℹ' && advice[4] == 'o' { 0 }
    else { 1 }
}

/// The ports that get advice of their own: the known ports but port 20.
pub open spec fn has_own_advice(p: u16) -> bool {
    known_port(p) && p != 20
}

proof fn lemma_advice_owner(p: u16)
    ensures
        advice_owner(security_info(p)) == (if has_own_advice(p) { p } else { 0 }),
{
    reveal_strlit("⚠️ FTP transmet les données en clair. Préférer SFTP (port 22)");
    reveal_strlit("✅ Protocole sécurisé. Vérifier les clés et désactiver l'auth par mot de passe");
    reveal_strlit("🚨 TRÈS DANGEREUX - Tout est transmis en clair. À désactiver immédiatement");
    reveal_strlit("⚠️ Peut être utilisé pour spam. Configurer l'authentification");
    reveal_strlit("ℹ️ Service essentiel. Sécuriser contre les attaques DNS");
    reveal_strlit("⚠️ Trafic non chiffré. Rediriger vers HTTPS (443)");
    reveal_strlit("⚠️ Emails transmis en clair. Préférer POP3S (995) ou IMAPS (993)");
    reveal_strlit("⚠️ Emails transmis en clair. Préférer IMAPS (993)");
    reveal_strlit("✅ Protocole sécurisé. Vérifier les certificats SSL/TLS");
    reveal_strlit("✅ IMAP sécurisé avec chiffrement SSL/TLS");
    reveal_strlit("✅ POP3 sécurisé avec chiffrement SSL/TLS");
    reveal_strlit("⚠️ Base de données exposée. Restreindre l'accès et changer le port par défaut");
    reveal_strlit("🚨 RDP exposé = risque élevé. Utiliser VPN et authentification forte");
    reveal_strlit("⚠️ Service Windows. Peut être exploité, limiter l'exposition");
    reveal_strlit("⚠️ NetBIOS ancien protocole. Désactiver si non nécessaire");
    reveal_strlit("⚠️ SMB vulnérable aux attaques. Mettre à jour et sécuriser");
    reveal_strlit("⚠️ SQL Server exposé. Changer le port et restreindre l'accès");
    reveal_strlit("⚠️ Oracle Database exposée. Sécuriser l'accès et changer le port");
    reveal_strlit("⚠️ PostgreSQL exposé. Configurer l'authentification et le chiffrement");
    reveal_strlit("🚨 Redis sans auth par défaut. Configurer un mot de passe immédiatement");
    reveal_strlit("⚠️ MongoDB exposé. Activer l'authentification et le chiffrement");
    reveal_strlit("ℹ️ Port non standard. Identifier le service et évaluer les risques");
}

/// Each port with advice of its own gets advice that no other port gets.
pub proof fn lemma_advice_distinct(p: u16, q: u16)
    requires
        has_own_advice(p),
        p != q,
    ensures
        security_info(p) != security_info(q),
{
    lemma_advice_owner(p);
    lemma_advice_owner(q);
}

/// The port whose description is `text` (0 for the generic description),
/// told apart by the text's length and first character.
pub open spec fn description_owner(text: Seq<char>) -> u16 {
    if text.len() == 44 && text[0] == 'C' { 20 }
    else if text.len() == 58 && text[0] == 'C' { 21 }
    else if text.len() == 63 && text[0] == 'S' { 22 }
    else if text.len() == 47 && text[0] == 'T' { 23 }
    else if text.len() == 46 && text[0] == 'S' { 25 }
    else if text.len() == 50 && text[0] == 'D' { 53 }
    else if text.len() == 58 && text[0] == 'H' { 80 }
    else if text.len() == 44 && text[0] == 'P' { 110 }
    else if text.len() == 63 && text[0] == 'I' { 143 }
    else if text.len() == 45 && text[0] == 'H' { 443 }
    else if text.len() == 34 && text[0] == 'I' { 993 }
    else if text.len() == 34 && text[0] == 'P' { 995 }
    else if text.len() == 46 && text[0] == 'M' { 3306 }
    else if text.len() == 57 && text[0] == 'R' { 3389 }
    else if text.len() == 41 && text[0] == 'R' { 135 }
    else if text.len() == 53 && text[0] == 'N' { 139 }
    else if text.len() == 53 && text[0] == 'S' { 445 }
    else if text.len() == 49 && text[0] == 'M' { 1433 }
    else if text.len() == 40 && text[0] == 'O' { 1521 }
    else if text.len() == 39 && text[0] == 'P' { 5432 }
    else if text.len() == 40 && text[0] == 'R' { 6379 }
    else if text.len() == 39 && text[0] == 'M' { 27017 }
    else if text.len() == 56 && text[0] == 'P' { 0 }
    else { 1 }
}

proof fn lemma_description_owner(p: u16)
    ensures
        description_owner(port_description(p)) == (if known_port(p) { p } else { 0 }),
{
    reveal_strlit("Canal de données FTP - Transfert de fichiers");
    reveal_strlit("Canal de contrôle FTP - Commandes de transfert de fichiers");
    reveal_strlit("Secure Shell - Accès terminal sécurisé et transfert de fichiers");
    reveal_strlit("Telnet - Accès terminal non sécurisé (obsolète)");
    reveal_strlit("Simple Mail Transfer Protocol - Envoi d'emails");
    reveal_strlit("Domain Name System - Résolution de noms de domaine");
    reveal_strlit("HyperText Transfer Protocol - Navigation web non sécurisée");
    reveal_strlit("Post Office Protocol v3 - Réception d'emails");
    reveal_strlit("Internet Message Access Protocol - Gestion d'emails sur serveur");
    reveal_strlit("HTTPS - Navigation web sécurisée avec SSL/TLS");
    reveal_strlit("IMAPS - IMAP sécurisé avec SSL/TLS");
    reveal_strlit("POP3S - POP3 sécurisé avec SSL/TLS");
    reveal_strlit("MySQL Database - Base de données relationnelle");
    reveal_strlit("Remote Desktop Protocol - Accès bureau à distance Windows");
    reveal_strlit("RPC Endpoint Mapper - Service RPC Windows");
    reveal_strlit("NetBIOS Session Service - Partage de fichiers Windows");
    reveal_strlit("SMB/CIFS - Partage de fichiers et imprimantes Windows");
    reveal_strlit("Microsoft SQL Server - Base de données SQL Server");
    reveal_strlit("Oracle Database - Base de données Oracle");
    reveal_strlit("PostgreSQL - Base de données PostgreSQL");
    reveal_strlit("Redis - Base de données en mémoire Redis");
    reveal_strlit("MongoDB - Base de données NoSQL MongoDB");
    reveal_strlit("Port non standard - Vérifier la documentation du service");
}

/// Each known port has a description that no other port has.
pub proof fn lemma_descriptions_distinct(p: u16, q: u16)
    requires
        known_port(p),
        p != q,
    ensures
        port_description(p) != port_description(q),
{
    lemma_description_owner(p);
    lemma_description_owner(q);
}

/// `s` ends with `t`.
pub open spec fn ends_with(s: Seq<char>, t: Seq<char>) -> bool {
    t.len() <= s.len() && s.skip(s.len() - t.len()) == t
}

/// A port described as served over SSL/TLS is a secure port, and its advice
/// opens with the secure mark.
pub proof fn lemma_tls_description_is_secure(p: u16)
    ensures
        ends_with(port_description(p), "SSL/TLS"@) ==> risk_of(p) == PortRisk::Secure
            && security_info(p)[0] == secure_mark(),
{
    lemma_advice_matches_risk(p);
    reveal_strlit("Canal de données FTP - Transfert de fichiers");
    reveal_strlit("Canal de contrôle FTP - Commandes de transfert de fichiers");
    reveal_strlit("Secure Shell - Accès terminal sécurisé et transfert de fichiers");
    reveal_strlit("Telnet - Accès terminal non sécurisé (obsolète)");
    reveal_strlit("Simple Mail Transfer Protocol - Envoi d'emails");
    reveal_strlit("Domain Name System - Résolution de noms de domaine");
    reveal_strlit("HyperText Transfer Protocol - Navigation web non sécurisée");
    reveal_strlit("Post Office Protocol v3 - Réception d'emails");
    reveal_strlit("Internet Message Access Protocol - Gestion d'emails sur serveur");
    reveal_strlit("HTTPS - Navigation web sécurisée avec SSL/TLS");
    reveal_strlit("IMAPS - IMAP sécurisé avec SSL/TLS");
    reveal_strlit("POP3S - POP3 sécurisé avec SSL/TLS");
    reveal_strlit("MySQL Database - Base de données relationnelle");
    reveal_strlit("Remote Desktop Protocol - Accès bureau à distance Windows");
    reveal_strlit("RPC Endpoint Mapper - Service RPC Windows");
    reveal_strlit("NetBIOS Session Service - Partage de fichiers Windows");
    reveal_strlit("SMB/CIFS - Partage de fichiers et imprimantes Windows");
    reveal_strlit("Microsoft SQL Server - Base de données SQL Server");
    reveal_strlit("Oracle Database - Base de données Oracle");
    reveal_strlit("PostgreSQL - Base de données PostgreSQL");
    reveal_strlit("Redis - Base de données en mémoire Redis");
    reveal_strlit("MongoDB - Base de données NoSQL MongoDB");
    reveal_strlit("Port non standard - Vérifier la documentation du service");
    reveal_strlit("SSL/TLS");
    let d = port_description(p);
    if ends_with(d, "SSL/TLS"@) {
        let n = d.len();
        assert(d.skip(n - 7)[0] == d[n - 7]);
        assert(d.skip(n - 7)[1] == d[n - 6]);
        assert(d.skip(n - 7)[2] == d[n - 5]);
        assert(d.skip(n - 7)[3] == d[n - 4]);
        assert(d.skip(n - 7)[4] == d[n - 3]);
        assert(d.skip(n - 7)[5] == d[n - 2]);
        assert(d.skip(n - 7)[6] == d[n - 1]);
    }
}

} // verus!
